use vstd::prelude::*;

verus! {

/// A firmware service call that the loader asks its caller to make.
#[derive(Debug, Clone, Copy, PartialEq, Eq, Structural)]
pub enum FirmwareCall {
    /// Ask for the memory map with a zero-length buffer, to learn its size.
    ProbeMapSize,
    /// Allocate `size` bytes of loader-owned data.
    AllocatePool { size: u64 },
    /// Fetch the memory map into the buffer at `buffer`, `size` bytes long.
    GetMemoryMap { buffer: u64, size: u64 },
    /// Leave boot services with `map_key`. Nothing that may allocate may run
    /// between the fetch that gave the key and this call.
    ExitBootServices { map_key: u64 },
    /// Nothing is left to do.
    Finished,
    /// The loader has failed: halt without starting the kernel.
    Abort,
}

/// What firmware answered to the call made last.
#[derive(Debug, Clone, Copy, PartialEq, Eq, Structural)]
pub enum FirmwareReply {
    /// The buffer handed to the memory-map call cannot hold the map.
    BufferTooSmall { required: u64 },
    /// The memory map was written to the buffer.
    MapFetched { size: u64, descriptor_size: u64, descriptor_version: u32, map_key: u64 },
    /// The allocation succeeded.
    Allocated { address: u64 },
    /// The allocation failed.
    AllocationFailed,
    /// Boot services have ended.
    ExitAccepted,
    /// The exit call was rejected as an invalid parameter: the key is stale.
    ExitRejected,
    /// The call failed in a way that no retry mends.
    Failure,
}

} // verus!
