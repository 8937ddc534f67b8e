//! Serial device interfaces and the drivers that implement them.

pub mod amba_pl011;

use vstd::prelude::*;

verus! {

/// Interface of a serial device driver, as seen by the rest of the kernel.
pub trait SerialDevice {
    /// Initializes the device.
    fn init(&self);

    /// Transmits `byte`.
    fn write_byte(&self, byte: u8);

    /// Reads a byte from the device, or `None` when there is no data.
    fn read_byte(&self) -> Option<u8>;

    /// Enables the device.
    fn enable(&self);

    /// Disables the device.
    fn disable(&self);
}

/// Interface of a polling serial driver bound to a single device.
pub trait Serial {
    /// The driver bound to the device.
    fn init() -> &'static Self;

    /// Enables the device for transmit and receive.
    fn enable(&self);

    /// Disables the device.
    fn disable(&self);

    /// Transmits `c`, waiting until the device can take it.
    fn write_byte(&self, c: u8);

    /// Receives a byte, waiting until the device holds one.
    fn read_byte(&self) -> u8;

    /// Transmits the bytes of `string` one at a time, in order.
    fn write_string(&self, string: &str) {
        let bytes = string.as_bytes();
        let mut i: usize = 0;
        while i < bytes.len()
            invariant
                i <= bytes@.len(),
            decreases bytes@.len() - i,
        {
            self.write_byte(bytes[i]);
            i = i + 1;
        }
    }
}

} // verus!
