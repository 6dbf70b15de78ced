use vstd::prelude::*;

verus! {

/// Errors of the memory device's own logic.
#[derive(Clone, Copy, Debug, PartialEq, Eq, Structural)]
pub enum MemoryDeviceError {
    /// Start address already set
    AddressAlreadySet,
    /// Bitmap is not initialized
    BitmapNotPresent,
    /// Block Size is zero bytes.
    BlockSizeIsZero,
    /// Block Size not a multiple of page size.
    BlockSizeNotMultipleOfPageSize(u64),
    /// Block Size not a power of 2.
    BlockSizeNotPowerOf2,
    /// Device not activated yet.
    DeviceNotActive,
    /// No memory device found.
    DeviceNotFound,
    /// Guest Memory Error
    GuestMemory,
    /// Host region start address already set.
    HostAddressAlreadySet,
    /// Requested size exceed the size of the usable region.
    RequestedSizeTooLarge,
    /// Failed to send response to the guest.
    ResponseSendFailure,
    /// Size is not a multiple of Block Size.
    SizeNotMultipleOfBlockSize,
    /// Request type is none of the supported types.
    UnknownRequestType(u16),
}

/// Errors while activating the device.
#[derive(Clone, Copy, Debug, PartialEq, Eq, Structural)]
pub enum ActivateError {
    /// The activation event could not be signalled.
    EventFd,
}

} // verus!
