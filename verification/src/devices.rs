//! Virtual device emulation interface.
//!
//! Device models implement this trait to service the memory-mapped and
//! port I/O accesses that guest exits report.

use vstd::prelude::*;
use crate::Result;

verus! {

/// A virtual device: handles the I/O accesses trapped from a guest.
pub trait VirtualDevice {
    /// Handle a memory-mapped I/O read.
    fn mmio_read(&mut self, addr: u64, size: u8) -> Result<u64>;

    /// Handle a memory-mapped I/O write.
    fn mmio_write(&mut self, addr: u64, size: u8, value: u64) -> Result<()>;

    /// Handle a port I/O read; devices without port I/O float the bus.
    fn io_read(&mut self, port: u16, size: u8) -> Result<u32> {
        let _ = port;
        let _ = size;
        Ok(0xFFFF_FFFF)
    }

    /// Handle a port I/O write; devices without port I/O ignore it.
    fn io_write(&mut self, port: u16, size: u8, value: u32) -> Result<()> {
        let _ = port;
        let _ = size;
        let _ = value;
        Ok(())
    }
}

} // verus!
