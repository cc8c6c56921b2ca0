//! Flash memory controller: capacity and the range and alignment rules
//! that every erase and write must satisfy.
//!
//! The unlock/program/lock sequencing against the controller's registers
//! has no coordination problem; it lives in the runtime layer, which
//! checks every operation through the validators here first.

use vstd::prelude::*;

verus! {

/// Bytes written at a time; the controller programs 32-bit words.
pub const WRITE_SIZE: u32 = 4;

/// Bytes erased at a time; the page size.
pub const ERASE_SIZE: u32 = 1024;

/// Errors of the flash controller.
#[derive(Debug, Clone, Copy, PartialEq, Eq, Structural)]
pub enum FlashError {
    /// The controller did not finish in time.
    Timeout,
    /// The controller reported a programming error.
    WriteError,
    /// The controller reported an erase error.
    EraseError,
    /// The operation reaches outside the flash.
    AddressOutOfRange,
    /// The operation is not aligned to its granule.
    UnalignedAddress,
}

/// The flash memory controller.
pub struct Flash {
    _private: (),
}

impl Flash {
    /// Claim the flash controller.
    pub fn new() -> Self {
        Flash { _private: () }
    }

    /// The flash capacity in bytes.
    pub fn capacity(&self) -> (r: usize)
        ensures
            r == 131072,
    {
        let kb = crate::chip::memory().flash_kb;
        kb as usize * 1024
    }

    /// Whether an erase range is acceptable: both ends on page
    /// boundaries, the end inside the flash.
    pub fn check_erase_range(&self, from: u32, to: u32, capacity: u32) -> (r: Result<
        (),
        FlashError,
    >)
        ensures
            (from % ERASE_SIZE != 0 || to % ERASE_SIZE != 0) ==> r == Result::<
                (),
                FlashError,
            >::Err(FlashError::UnalignedAddress),
            (from % ERASE_SIZE == 0 && to % ERASE_SIZE == 0 && to > capacity) ==> r == Result::<
                (),
                FlashError,
            >::Err(FlashError::AddressOutOfRange),
            (from % ERASE_SIZE == 0 && to % ERASE_SIZE == 0 && to <= capacity) ==> r is Ok,
    {
        if from % ERASE_SIZE != 0 || to % ERASE_SIZE != 0 {
            return Err(FlashError::UnalignedAddress);
        }
        if to > capacity {
            return Err(FlashError::AddressOutOfRange);
        }
        Ok(())
    }

    /// Whether a write is acceptable: word-aligned offset and length,
    /// and the end inside the flash.
    pub fn check_write_range(&self, offset: u32, len: u32, capacity: u32) -> (r: Result<
        (),
        FlashError,
    >)
        requires
            offset + len <= u32::MAX,
        ensures
            offset % WRITE_SIZE != 0 ==> r == Result::<(), FlashError>::Err(
                FlashError::UnalignedAddress),
            (offset % WRITE_SIZE == 0 && offset + len > capacity) ==> r == Result::<
                (),
                FlashError,
            >::Err(FlashError::AddressOutOfRange),
            (offset % WRITE_SIZE == 0 && offset + len <= capacity && len % WRITE_SIZE != 0)
                ==> r == Result::<(), FlashError>::Err(FlashError::UnalignedAddress),
            (offset % WRITE_SIZE == 0 && offset + len <= capacity && len % WRITE_SIZE == 0)
                ==> r is Ok,
    {
        if offset % WRITE_SIZE != 0 {
            return Err(FlashError::UnalignedAddress);
        }
        if offset + len > capacity {
            return Err(FlashError::AddressOutOfRange);
        }
        if len % WRITE_SIZE != 0 {
            return Err(FlashError::UnalignedAddress);
        }
        Ok(())
    }
}

/// The 32-bit word four little-endian bytes program as.
pub fn word_from_le_bytes(b0: u8, b1: u8, b2: u8, b3: u8) -> (r: u32)
    ensures
        r == b0 + b1 * 0x100 + b2 * 0x10000 + b3 * 0x1000000,
{
    b0 as u32 + b1 as u32 * 0x100 + b2 as u32 * 0x10000 + b3 as u32 * 0x1000000
}

} // verus!
