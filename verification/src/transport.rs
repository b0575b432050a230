//! Hardware abstraction layer for spectrometer communication.
//!
//! The [`Transport`] trait abstracts the underlying transfer mechanism (USB
//! in production, scripted transports in tests) from the device logic. A
//! transport is only required to return at most as many bytes as were asked
//! for, and to report every failure as the single transport error kind; the
//! engine is verified to cope with any byte contents and any short or empty
//! answer.

use vstd::prelude::*;
use crate::errors::SpectroError;

verus! {

/// A trait abstracting low-level communication with a spectrometer device.
pub trait Transport {
    /// Performs a vendor control IN transfer (bmRequestType 0xC0) of up to
    /// `max_len` bytes and returns the bytes read.
    ///
    /// * `request` - the bRequest field of the setup packet.
    /// * `value` - the wValue field.
    /// * `index` - the wIndex field.
    /// * `timeout_ms` - maximum time to wait, in milliseconds.
    fn control_read(&self, request: u8, value: u16, index: u16, max_len: usize, timeout_ms: u64) -> (r:
        Result<Vec<u8>, SpectroError>)
        ensures
            r matches Ok(buf) ==> buf@.len() <= max_len,
            r matches Err(e) ==> e is Transport,
    ;

    /// Performs a vendor control OUT transfer (bmRequestType 0x40) and
    /// returns the number of bytes written.
    fn control_write(
        &self,
        request: u8,
        value: u16,
        index: u16,
        data: &Vec<u8>,
        timeout_ms: u64,
    ) -> (r: Result<usize, SpectroError>)
        ensures
            r matches Err(e) ==> e is Transport,
    ;

    /// Reads up to `max_len` bytes from an interrupt IN endpoint. May return
    /// short; callers loop.
    fn interrupt_read(&self, endpoint: u8, max_len: usize, timeout_ms: u64) -> (r: Result<
        Vec<u8>,
        SpectroError,
    >)
        ensures
            r matches Ok(buf) ==> buf@.len() <= max_len,
            r matches Err(e) ==> e is Transport,
    ;

    /// Returns a human-readable name for this transport (for diagnostics).
    fn name(&self) -> (r: &'static str);
}

} // verus!
