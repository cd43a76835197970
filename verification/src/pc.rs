//! Desktop debug host: terminal input and the FT232H USB-to-SPI transport.
//!
//! Neither a terminal backend nor an FTDI driver is linked into this build:
//! the terminal never reports a key, and no FT232H device is ever found.
use vstd::prelude::*;

use crate::hal::{BusOp, FlowControl, InputEvent, InputSource, SpiTransport};

verus! {

/// Terminal-based keyboard input for the PC platform.
pub struct TerminalInput;

impl InputSource for TerminalInput {
    fn init(&mut self) {
    }

    /// Without a terminal backend no key ever arrives.
    fn poll(&mut self) -> (e: Option<InputEvent>)
        ensures
            e is None,
    {
        None
    }
}

/// FT232H transport error types.
#[derive(Debug, Clone, Copy, PartialEq, Eq, Structural)]
pub enum Ft232hError {
    /// FT232H device not found on USB bus.
    DeviceNotFound,
    /// USB communication error.
    UsbError,
    /// SPI protocol error.
    SpiError,
}

/// FT232H SPI transport for GPU communication.
pub struct Ft232hTransport {
    log_enabled: bool,
    transaction_count: u64,
    /// The operations carried out so far, oldest first.
    carried_out: Ghost<Seq<BusOp>>,
}

impl Ft232hTransport {
    /// Open the FT232H device and configure MPSSE mode for SPI. Without an
    /// FTDI driver in this build the device is never found.
    pub fn new() -> (r: Result<Self, Ft232hError>)
        ensures
            r == Err::<Self, Ft232hError>(Ft232hError::DeviceNotFound),
    {
        Err(Ft232hError::DeviceNotFound)
    }
}

impl SpiTransport for Ft232hTransport {
    type Error = Ft232hError;

    closed spec fn history(&self) -> Seq<BusOp> {
        self.carried_out@
    }

    /// Without an FTDI driver no SPI transaction can be made: every write
    /// fails with `SpiError`.
    fn write_register(&mut self, addr: u8, data: u64) -> (r: Result<(), Ft232hError>)
        ensures
            r == Err::<(), Ft232hError>(Ft232hError::SpiError),
    {
        Err(Ft232hError::SpiError)
    }

    /// Without an FTDI driver no SPI transaction can be made: every read
    /// fails with `SpiError`.
    fn read_register(&mut self, addr: u8) -> (r: Result<u64, Ft232hError>)
        ensures
            r == Err::<u64, Ft232hError>(Ft232hError::SpiError),
    {
        Err(Ft232hError::SpiError)
    }
}

impl FlowControl for Ft232hTransport {
    /// With no device attached the command FIFO never fills.
    fn is_cmd_full(&mut self) -> (full: bool)
        ensures
            !full,
    {
        proof {
            self.carried_out@ = self.carried_out@.push(BusOp::CmdFullQuery { full: false });
        }
        false
    }

    /// With no device attached the command FIFO is always empty.
    fn is_cmd_empty(&mut self) -> (empty: bool)
        ensures
            empty,
    {
        proof {
            self.carried_out@ = self.carried_out@.push(BusOp::CmdEmptyQuery { empty: true });
        }
        true
    }

    /// With no device attached there is no VSYNC line to wait on; the wait
    /// returns at once.
    fn wait_vsync(&mut self) {
        proof {
            self.carried_out@ = self.carried_out@.push(BusOp::VsyncWait);
        }
    }
}

} // verus!
