//! The 9-byte SPI register protocol: frame layout for writes and reads, and
//! decoding of a read response.
use vstd::prelude::*;

use crate::gpu::driver::write_frame;

verus! {

/// SPI transport error for the RP2350 platform.
#[derive(Debug, Clone, Copy, PartialEq, Eq, Structural)]
pub enum TransportError {
    /// SPI bus error during communication.
    SpiBusError,
}

/// The value of the eight bytes `b[1..9]` read as a big-endian integer.
pub open spec fn be_value(b: Seq<u8>) -> int {
    b[1] * 0x100_0000_0000_0000 + b[2] * 0x1_0000_0000_0000 + b[3] * 0x100_0000_0000 + b[4]
        * 0x1_0000_0000 + b[5] * 0x100_0000 + b[6] * 0x1_0000 + b[7] * 0x100 + b[8]
}

/// The frame that writes `data` to register `addr`: the address with bit 7
/// clear, then the data most significant byte first.
pub fn register_write_frame(addr: u8, data: u64) -> (f: [u8; 9])
    ensures
        f@ == write_frame(addr, data),
{
    let f = [
        addr & 0x7F,
        ((data >> 56) & 0xFF) as u8,
        ((data >> 48) & 0xFF) as u8,
        ((data >> 40) & 0xFF) as u8,
        ((data >> 32) & 0xFF) as u8,
        ((data >> 24) & 0xFF) as u8,
        ((data >> 16) & 0xFF) as u8,
        ((data >> 8) & 0xFF) as u8,
        (data & 0xFF) as u8,
    ];
    assert(f@ =~= write_frame(addr, data));
    f
}

/// The frame that reads register `addr`: the address with bit 7 set, then
/// eight zero bytes clocked out while the reply comes in.
pub fn register_read_frame(addr: u8) -> (f: [u8; 9])
    ensures
        f@ == seq![0x80u8 | (addr & 0x7Fu8), 0u8, 0u8, 0u8, 0u8, 0u8, 0u8, 0u8, 0u8],
{
    let f = [0x80 | (addr & 0x7F), 0, 0, 0, 0, 0, 0, 0, 0];
    assert(f@ =~= seq![0x80u8 | (addr & 0x7Fu8), 0u8, 0u8, 0u8, 0u8, 0u8, 0u8, 0u8, 0u8]);
    f
}

/// The register value in a read response: bytes 1 to 8, most significant
/// first (byte 0 arrives while the address is still going out).
pub fn decode_read_response(rx: &[u8; 9]) -> (data: u64)
    ensures
        data == be_value(rx@),
{
    let b1 = rx[1] as u64;
    let b2 = rx[2] as u64;
    let b3 = rx[3] as u64;
    let b4 = rx[4] as u64;
    let b5 = rx[5] as u64;
    let b6 = rx[6] as u64;
    let b7 = rx[7] as u64;
    let b8 = rx[8] as u64;
    assert((((((((((((((b1 << 8u64) | b2) << 8u64) | b3) << 8u64) | b4) << 8u64) | b5) << 8u64)
        | b6) << 8u64) | b7) << 8u64) | b8 == b1 * 0x100_0000_0000_0000u64 + b2
        * 0x1_0000_0000_0000u64 + b3 * 0x100_0000_0000u64 + b4 * 0x1_0000_0000u64 + b5
        * 0x100_0000u64 + b6 * 0x1_0000u64 + b7 * 0x100u64 + b8) by (bit_vector)
        requires
            b1 < 256 && b2 < 256 && b3 < 256 && b4 < 256 && b5 < 256 && b6 < 256 && b7 < 256 && b8
                < 256,
    ;
    let mut data: u64 = 0;
    data = (data << 8) | b1;
    data = (data << 8) | b2;
    data = (data << 8) | b3;
    data = (data << 8) | b4;
    data = (data << 8) | b5;
    data = (data << 8) | b6;
    data = (data << 8) | b7;
    data = (data << 8) | b8;
    assert((0u64 << 8u64) | b1 == b1) by (bit_vector);
    data
}

} // verus!
