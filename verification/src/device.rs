use vstd::prelude::*;
use crate::bitmap::{range_in_state, with_range_state, MemBitmap};
use crate::config_space::{
    config_bytes, config_read_result, config_write_fits, config_write_result, ConfigSpace,
    CONFIG_SPACE_SIZE,
};
use crate::error::{ActivateError, MemoryDeviceError};
use crate::request::{
    VirtioMemReq, VirtioMemResp, VIRTIO_MEM_REQ_PLUG, VIRTIO_MEM_REQ_STATE, VIRTIO_MEM_REQ_UNPLUG,
    VIRTIO_MEM_REQ_UNPLUG_ALL, VIRTIO_MEM_RESP_ACK, VIRTIO_MEM_RESP_ERROR, VIRTIO_MEM_STATE_MIXED,
    VIRTIO_MEM_STATE_PLUGGED, VIRTIO_MEM_STATE_UNPLUGGED,
};

verus! {

/// Bytes in a KiB.
pub const KIB: u64 = 1024;
/// Virtio device type of a memory device.
pub const TYPE_MEMORY: u32 = 24;
/// Feature bit: the device complies with virtio 1.0 or later.
pub const VIRTIO_F_VERSION_1: u32 = 32;
/// Size of the guest request queue.
pub const QUEUE_SIZE: u16 = 256;
/// Index of the guest request queue among the device's queues.
pub const GUEST_REQUESTS_INDEX: usize = 0;

/// Configuration of a memory device, as reported to the user.
#[derive(Clone, Debug, Default, PartialEq, Eq)]
pub struct MemoryConfig {
    /// ID of the device.
    pub id: String,
    /// Block size in KiB.
    pub block_size_kib: u64,
    /// Node id if any.
    pub node_id: Option<u16>,
    /// Region size in KiB.
    pub region_size_kib: u64,
    /// Requested size in KiB.
    pub requested_size_kib: u64,
}

/// Virtio memory device: the state its decisions depend on.
#[derive(Debug)]
pub struct Memory {
    pub avail_features: u64,
    pub acked_features: u64,
    pub config_space: ConfigSpace,
    /// Whether the device has been activated by the driver.
    pub activated: bool,
    pub id: String,
    pub addr_is_set: bool,
    pub memory_bitmap: MemBitmap,
    /// Host address where the memory region is mapped.
    pub host_addr: u64,
    pub host_addr_is_set: bool,
}

/// Mathematical model of a memory device.
#[verifier::ext_equal]
pub struct MemoryView {
    pub avail_features: u64,
    pub acked_features: u64,
    pub config_space: ConfigSpace,
    pub activated: bool,
    pub id: Seq<char>,
    pub addr_is_set: bool,
    /// Plug state of each block.
    pub blocks: Seq<bool>,
    pub host_addr: u64,
    pub host_addr_is_set: bool,
}

impl View for Memory {
    type V = MemoryView;

    open spec fn view(&self) -> MemoryView {
        MemoryView {
            avail_features: self.avail_features,
            acked_features: self.acked_features,
            config_space: self.config_space,
            activated: self.activated,
            id: self.id@,
            addr_is_set: self.addr_is_set,
            blocks: self.memory_bitmap@,
            host_addr: self.host_addr,
            host_addr_is_set: self.host_addr_is_set,
        }
    }
}

/// `x` is a power of two.
pub open spec fn is_pow2(x: nat) -> bool
    decreases x,
{
    if x == 0 {
        false
    } else if x == 1 {
        true
    } else if x % 2 == 1 {
        false
    } else {
        is_pow2(x / 2)
    }
}

/// Whether `x` is a power of two.
pub fn is_power_of_two(x: u64) -> (res: bool)
    ensures
        res == is_pow2(x as nat),
{
    if x == 0 {
        return false;
    }
    let mut y: u64 = x;
    while y > 1 && y % 2 == 0
        invariant
            y > 0,
            is_pow2(y as nat) == is_pow2(x as nat),
        decreases y,
    {
        y = y / 2;
    }
    y == 1
}

/// The error making a device with these parameters fails with, if any:
/// the checks run in this order and the first that fails decides.
pub open spec fn new_device_error(block_size: u64, region_size: u64, requested_size: u64, page_size: u64) -> Option<
    MemoryDeviceError,
> {
    if block_size == 0 {
        Some(MemoryDeviceError::BlockSizeIsZero)
    } else if block_size % page_size != 0 {
        Some(MemoryDeviceError::BlockSizeNotMultipleOfPageSize(page_size))
    } else if !is_pow2(block_size as nat) {
        Some(MemoryDeviceError::BlockSizeNotPowerOf2)
    } else if region_size % block_size != 0 || requested_size % block_size != 0 {
        Some(MemoryDeviceError::SizeNotMultipleOfBlockSize)
    } else {
        None
    }
}

impl MemoryView {
    /// Whether a request for `size` bytes at guest address `addr` lies in the
    /// usable region: `addr` is block aligned, the size is not zero, `addr`
    /// is not below the region start and, unless `addr + size` overflows,
    /// the range does not end past the usable region.
    pub open spec fn range_valid(self, addr: u64, size: int) -> bool {
        let start = self.config_space.addr;
        let usable_end = start + self.config_space.usable_region_size;
        &&& addr % self.config_space.block_size == 0
        &&& size != 0
        &&& addr >= start
        &&& !(addr + size <= u64::MAX && addr + size > usable_end)
    }

    /// Index of the block at guest address `addr`.
    pub open spec fn first_block(self, addr: u64) -> int {
        ((((addr - self.config_space.addr) as u64) / self.config_space.block_size) as usize) as int
    }

    /// Size in bytes of `nb` blocks.
    pub open spec fn request_size(self, nb: u16) -> int {
        nb * self.config_space.block_size
    }

    /// No arithmetic of a range request overflows: the block size is not
    /// zero, `nb` blocks fit in a `u64`, and so does the end of the usable region.
    pub open spec fn range_request_in_bounds(self, nb: u16) -> bool {
        &&& self.config_space.block_size > 0
        &&& self.request_size(nb) <= u64::MAX
        &&& self.config_space.addr + self.config_space.usable_region_size <= u64::MAX
    }

    /// A plug request of `nb` blocks at `addr` is carried out.
    pub open spec fn can_plug(self, addr: u64, nb: u16) -> bool {
        &&& self.range_valid(addr, self.request_size(nb))
        &&& !range_in_state(self.blocks, self.first_block(addr), nb as int, false)
    }

    /// An unplug request of `nb` blocks at `addr` passes the device's checks
    /// (it is then carried out when the host releases the memory).
    pub open spec fn can_unplug(self, addr: u64, nb: u16) -> bool {
        &&& self.range_valid(addr, self.request_size(nb))
        &&& !range_in_state(self.blocks, self.first_block(addr), nb as int, true)
    }

    /// The device after plugging `nb` blocks at `addr`.
    pub open spec fn after_plug(self, addr: u64, nb: u16) -> MemoryView {
        MemoryView {
            blocks: with_range_state(self.blocks, self.first_block(addr), nb as int, true),
            config_space: ConfigSpace {
                plugged_size: (self.config_space.plugged_size + self.request_size(nb)) as u64,
                ..self.config_space
            },
            ..self
        }
    }

    /// The device after unplugging `nb` blocks at `addr`.
    pub open spec fn after_unplug(self, addr: u64, nb: u16) -> MemoryView {
        MemoryView {
            blocks: with_range_state(self.blocks, self.first_block(addr), nb as int, false),
            config_space: ConfigSpace {
                plugged_size: (self.config_space.plugged_size - self.request_size(nb)) as u64,
                ..self.config_space
            },
            ..self
        }
    }

    /// Number of blocks an unplug-all request clears: the region size over
    /// the block size, taken modulo 2^16.
    pub open spec fn unplug_all_count(self) -> int {
        ((self.config_space.region_size / self.config_space.block_size) as u16) as int
    }

    /// The device after unplugging all blocks.
    pub open spec fn after_unplug_all(self) -> MemoryView {
        MemoryView {
            blocks: with_range_state(self.blocks, 0, self.unplug_all_count(), false),
            config_space: ConfigSpace { plugged_size: 0, ..self.config_space },
            ..self
        }
    }

    /// The state reported for `nb` blocks at `addr`.
    pub open spec fn range_state(self, addr: u64, nb: u16) -> u16 {
        if range_in_state(self.blocks, self.first_block(addr), nb as int, true) {
            VIRTIO_MEM_STATE_PLUGGED
        } else if range_in_state(self.blocks, self.first_block(addr), nb as int, false) {
            VIRTIO_MEM_STATE_UNPLUGGED
        } else {
            VIRTIO_MEM_STATE_MIXED
        }
    }

    /// `self` is a freshly made device with these parameters.
    pub open spec fn is_new_device(
        self,
        block_size: u64,
        node_id: Option<u16>,
        region_size: u64,
        id: Seq<char>,
        requested_size: u64,
    ) -> bool {
        &&& self.avail_features == 0x1_0000_0000u64
        &&& self.acked_features == 0
        &&& self.config_space.block_size == block_size
        &&& self.config_space.node_id == (match node_id {
            Some(n) => n,
            None => 0u16,
        })
        &&& self.config_space._padding@ == seq![0u8, 0u8, 0u8, 0u8, 0u8, 0u8]
        &&& self.config_space.addr == 0
        &&& self.config_space.region_size == region_size
        &&& self.config_space.usable_region_size == 0
        &&& self.config_space.plugged_size == 0
        &&& self.config_space.requested_size == requested_size
        &&& !self.activated
        &&& self.id == id
        &&& !self.addr_is_set
        &&& self.blocks == Seq::new(((region_size / block_size) as usize) as nat, |i: int| false)
        &&& self.host_addr == 0
        &&& !self.host_addr_is_set
    }

    /// The device with its region starting at guest address `addr`, marked as set.
    pub open spec fn with_start_addr(self, addr: u64) -> MemoryView {
        MemoryView {
            config_space: ConfigSpace { addr, ..self.config_space },
            addr_is_set: true,
            ..self
        }
    }

    /// The device with its region mapped at host address `addr`, marked as set.
    pub open spec fn with_host_addr(self, addr: u64) -> MemoryView {
        MemoryView { host_addr: addr, host_addr_is_set: true, ..self }
    }

    /// The outcome of changing the requested size to `kib` KiB: the changed
    /// device, or the error when the device is not active, the size exceeds
    /// the usable region, or the size is not a multiple of the block size.
    pub open spec fn requested_size_change(self, kib: u64) -> Result<MemoryView, MemoryDeviceError> {
        let requested = kib * KIB;
        if !self.activated {
            Err(MemoryDeviceError::DeviceNotActive)
        } else if self.config_space.usable_region_size < requested {
            Err(MemoryDeviceError::RequestedSizeTooLarge)
        } else if requested % (self.config_space.block_size as int) != 0 {
            Err(MemoryDeviceError::SizeNotMultipleOfBlockSize)
        } else {
            Ok(
                MemoryView {
                    config_space: ConfigSpace { requested_size: requested as u64, ..self.config_space },
                    ..self
                },
            )
        }
    }

    /// Working out the host memory that `req` asks to release overflows no arithmetic.
    pub open spec fn release_in_bounds(self, req: VirtioMemReq) -> bool {
        req.req_type == VIRTIO_MEM_REQ_UNPLUG ==> {
            &&& self.range_request_in_bounds(req.data.nb_blocks)
            &&& self.can_unplug(req.data.addr, req.data.nb_blocks) ==> self.host_addr + (
            req.data.addr - self.config_space.addr) <= u64::MAX
        }
    }

    /// The host memory that handling `req` asks the host to release first,
    /// as `(host address, size)`: for an unplug request that passes the
    /// checks, the range it names; for unplug-all, the whole region.
    pub open spec fn release_for(self, req: VirtioMemReq) -> Option<(u64, u64)> {
        if req.req_type == VIRTIO_MEM_REQ_UNPLUG && self.can_unplug(req.data.addr, req.data.nb_blocks) {
            Some(
                (
                    (self.host_addr + (req.data.addr - self.config_space.addr)) as u64,
                    self.request_size(req.data.nb_blocks) as u64,
                ),
            )
        } else if req.req_type == VIRTIO_MEM_REQ_UNPLUG_ALL {
            Some((self.host_addr, self.config_space.region_size))
        } else {
            None
        }
    }

    /// Handling `req` overflows no arithmetic.
    pub open spec fn request_in_bounds(self, req: VirtioMemReq, release_result: i32) -> bool {
        let addr = req.data.addr;
        let nb = req.data.nb_blocks;
        if req.req_type == VIRTIO_MEM_REQ_PLUG {
            self.plug_in_bounds(addr, nb)
        } else if req.req_type == VIRTIO_MEM_REQ_UNPLUG {
            self.unplug_in_bounds(addr, nb, release_result)
        } else if req.req_type == VIRTIO_MEM_REQ_UNPLUG_ALL {
            self.unplug_all_in_bounds(release_result)
        } else if req.req_type == VIRTIO_MEM_REQ_STATE {
            self.range_request_in_bounds(nb)
        } else {
            true
        }
    }

    /// The device after handling `req`.
    pub open spec fn after_request(self, req: VirtioMemReq, release_result: i32) -> MemoryView {
        let addr = req.data.addr;
        let nb = req.data.nb_blocks;
        if req.req_type == VIRTIO_MEM_REQ_PLUG && self.can_plug(addr, nb) {
            self.after_plug(addr, nb)
        } else if req.req_type == VIRTIO_MEM_REQ_UNPLUG && self.can_unplug(addr, nb)
            && release_result == 0 {
            self.after_unplug(addr, nb)
        } else if req.req_type == VIRTIO_MEM_REQ_UNPLUG_ALL && release_result == 0 {
            self.after_unplug_all()
        } else {
            self
        }
    }

    /// The `(response type, response state)` the guest gets for `req`, or
    /// `None` for an unknown request type.
    pub open spec fn request_reply(self, req: VirtioMemReq, release_result: i32) -> Option<(u16, u16)> {
        let addr = req.data.addr;
        let nb = req.data.nb_blocks;
        if req.req_type == VIRTIO_MEM_REQ_PLUG {
            Some(
                if self.can_plug(addr, nb) {
                    (VIRTIO_MEM_RESP_ACK, 0u16)
                } else {
                    (VIRTIO_MEM_RESP_ERROR, 0u16)
                },
            )
        } else if req.req_type == VIRTIO_MEM_REQ_UNPLUG {
            Some(
                if self.can_unplug(addr, nb) && release_result == 0 {
                    (VIRTIO_MEM_RESP_ACK, 0u16)
                } else {
                    (VIRTIO_MEM_RESP_ERROR, 0u16)
                },
            )
        } else if req.req_type == VIRTIO_MEM_REQ_UNPLUG_ALL {
            Some(
                if release_result == 0 {
                    (VIRTIO_MEM_RESP_ACK, 0u16)
                } else {
                    (VIRTIO_MEM_RESP_ERROR, 0u16)
                },
            )
        } else if req.req_type == VIRTIO_MEM_REQ_STATE {
            Some(
                if self.range_valid(addr, self.request_size(nb)) {
                    (VIRTIO_MEM_RESP_ACK, self.range_state(addr, nb))
                } else {
                    (VIRTIO_MEM_RESP_ERROR, 0u16)
                },
            )
        } else {
            None
        }
    }

    /// A plug request of `nb` blocks at `addr` overflows no arithmetic.
    pub open spec fn plug_in_bounds(self, addr: u64, nb: u16) -> bool {
        &&& self.range_request_in_bounds(nb)
        &&& self.can_plug(addr, nb) ==> self.config_space.plugged_size + self.request_size(nb)
            <= u64::MAX
    }

    /// An unplug request of `nb` blocks at `addr`, the host release having
    /// returned `release_result`, overflows no arithmetic.
    pub open spec fn unplug_in_bounds(self, addr: u64, nb: u16, release_result: i32) -> bool {
        &&& self.range_request_in_bounds(nb)
        &&& self.can_unplug(addr, nb) ==> self.host_addr + (addr - self.config_space.addr)
            <= u64::MAX
        &&& self.can_unplug(addr, nb) && release_result == 0 ==> self.config_space.plugged_size
            >= self.request_size(nb)
    }

    /// An unplug-all request, the host release having returned
    /// `release_result`, divides by no zero block size.
    pub open spec fn unplug_all_in_bounds(self, release_result: i32) -> bool {
        release_result == 0 ==> self.config_space.block_size > 0
    }
}

impl Memory {
    /// Makes a device with blocks of `block_size` bytes over a region of
    /// `region_size` bytes, all blocks unplugged, on a host whose page size is
    /// `page_size`. Fails when the block size is zero, not a multiple of the
    /// page size or not a power of two, or when the region or requested size
    /// is not a multiple of the block size.
    pub fn new(
        block_size: u64,
        node_id: Option<u16>,
        region_size: u64,
        id: String,
        requested_size: u64,
        page_size: u64,
    ) -> (res: Result<Memory, MemoryDeviceError>)
        requires
            block_size != 0 ==> page_size > 0,
        ensures
            match new_device_error(block_size, region_size, requested_size, page_size) {
                Some(e) => res is Err && res->Err_0 == e,
                None => res is Ok && res->Ok_0@.is_new_device(
                    block_size,
                    node_id,
                    region_size,
                    id@,
                    requested_size,
                ),
            },
    {
        if block_size == 0 {
            return Err(MemoryDeviceError::BlockSizeIsZero);
        }
        if block_size % page_size != 0 {
            return Err(MemoryDeviceError::BlockSizeNotMultipleOfPageSize(page_size));
        }
        if !is_power_of_two(block_size) {
            return Err(MemoryDeviceError::BlockSizeNotPowerOf2);
        }
        if region_size % block_size != 0 {
            return Err(MemoryDeviceError::SizeNotMultipleOfBlockSize);
        }
        if requested_size % block_size != 0 {
            return Err(MemoryDeviceError::SizeNotMultipleOfBlockSize);
        }
        let avail_features: u64 = 1u64 << VIRTIO_F_VERSION_1;
        assert(1u64 << 32u32 == 0x1_0000_0000u64) by (bit_vector);
        let bitmap = MemBitmap::new(region_size, block_size);
        let node: u16 = match node_id {
            Some(n) => n,
            None => 0u16,
        };
        let memory = Memory {
            avail_features,
            acked_features: 0u64,
            config_space: ConfigSpace {
                block_size,
                node_id: node,
                _padding: [0u8, 0u8, 0u8, 0u8, 0u8, 0u8],
                addr: 0u64,
                region_size,
                usable_region_size: 0u64,
                plugged_size: 0u64,
                requested_size,
            },
            activated: false,
            id,
            addr_is_set: false,
            memory_bitmap: bitmap,
            host_addr: 0u64,
            host_addr_is_set: false,
        };
        assert(memory.config_space._padding@ =~= seq![0u8, 0u8, 0u8, 0u8, 0u8, 0u8]);
        assert(memory@.blocks =~= Seq::new(((region_size / block_size) as usize) as nat, |i: int| false));
        Ok(memory)
    }

    /// Whether the start address of the region has been set.
    pub fn addr_is_set(&self) -> (set: bool)
        ensures
            set == self.addr_is_set,
    {
        self.addr_is_set
    }

    /// Set the start address of the memory region managed by this device.
    /// Fails, changing nothing, when it was set before.
    pub fn set_addr(&mut self, addr: u64) -> (res: Result<(), MemoryDeviceError>)
        ensures
            old(self).addr_is_set ==> res == Err::<(), MemoryDeviceError>(
                MemoryDeviceError::AddressAlreadySet,
            ) && final(self)@ == old(self)@,
            !old(self).addr_is_set ==> res is Ok && final(self)@ == old(self)@.with_start_addr(addr),
    {
        if self.addr_is_set() {
            return Err(MemoryDeviceError::AddressAlreadySet);
        }
        self.config_space.addr = addr;
        self.addr_is_set = true;
        Ok(())
    }

    /// Whether the host address of the region has been set.
    pub fn host_addr_is_set(&self) -> (set: bool)
        ensures
            set == self.host_addr_is_set,
    {
        self.host_addr_is_set
    }

    /// Set the host address where the memory region is mapped. Fails,
    /// changing nothing, when it was set before.
    pub fn set_host_addr(&mut self, addr: u64) -> (res: Result<(), MemoryDeviceError>)
        ensures
            old(self).host_addr_is_set ==> res == Err::<(), MemoryDeviceError>(
                MemoryDeviceError::HostAddressAlreadySet,
            ) && final(self)@ == old(self)@,
            !old(self).host_addr_is_set ==> res is Ok && final(self)@ == old(self)@.with_host_addr(
                addr,
            ),
    {
        if self.host_addr_is_set() {
            return Err(MemoryDeviceError::HostAddressAlreadySet);
        }
        self.host_addr = addr;
        self.host_addr_is_set = true;
        Ok(())
    }

    /// Changes the size the device asks the driver to plug to
    /// `requested_size_kib` KiB. Fails, changing nothing, when the device is
    /// not active, when the size exceeds the usable region or when it is not
    /// a multiple of the block size.
    pub fn change_requested_size(&mut self, requested_size_kib: u64) -> (res: Result<
        (),
        MemoryDeviceError,
    >)
        requires
            old(self).activated ==> requested_size_kib * KIB <= u64::MAX,
            old(self).activated && requested_size_kib * KIB
                <= old(self).config_space.usable_region_size ==> old(self).config_space.block_size
                > 0,
        ensures
            match old(self)@.requested_size_change(requested_size_kib) {
                Ok(changed) => res is Ok && final(self)@ == changed,
                Err(e) => res == Err::<(), MemoryDeviceError>(e) && final(self)@ == old(self)@,
            },
    {
        if self.is_activated() {
            let requested_size = requested_size_kib * KIB;
            if self.config_space.usable_region_size < requested_size {
                return Err(MemoryDeviceError::RequestedSizeTooLarge);
            }
            if requested_size % self.block_size() != 0 {
                return Err(MemoryDeviceError::SizeNotMultipleOfBlockSize);
            }
            self.config_space.requested_size = requested_size;
            Ok(())
        } else {
            Err(MemoryDeviceError::DeviceNotActive)
        }
    }

    /// Get the configuration of the memory device, sizes in KiB (rounded down).
    pub fn config(&self) -> (cfg: MemoryConfig)
        ensures
            cfg.id@ == self.id@,
            cfg.block_size_kib == self.config_space.block_size / KIB,
            cfg.node_id == Some(self.config_space.node_id),
            cfg.region_size_kib == self.config_space.region_size / KIB,
            cfg.requested_size_kib == self.config_space.requested_size / KIB,
    {
        MemoryConfig {
            id: self.id.clone(),
            block_size_kib: self.block_size() / KIB,
            node_id: Some(self.node_id()),
            region_size_kib: self.region_size() / KIB,
            requested_size_kib: self.requested_size() / KIB,
        }
    }

    /// The virtio device type.
    pub fn device_type(&self) -> (t: u32)
        ensures
            t == TYPE_MEMORY,
    {
        TYPE_MEMORY
    }

    /// Features the device offers.
    pub fn avail_features(&self) -> (f: u64)
        ensures
            f == self.avail_features,
    {
        self.avail_features
    }

    /// Features the driver acknowledged.
    pub fn acked_features(&self) -> (f: u64)
        ensures
            f == self.acked_features,
    {
        self.acked_features
    }

    /// Records the features the driver acknowledged.
    pub fn set_acked_features(&mut self, acked_features: u64)
        ensures
            final(self)@ == (MemoryView { acked_features, ..old(self)@ }),
    {
        self.acked_features = acked_features;
    }

    /// Reads the configuration space from `offset` into `data`.
    pub fn read_config(&self, offset: u64, data: &mut [u8])
        ensures
            final(data)@ == config_read_result(config_bytes(self.config_space), offset, old(data)@),
    {
        self.config_space.read(offset, data);
    }

    /// Writes `data` into the configuration space at `offset`; a write that
    /// does not fit in the space changes nothing.
    pub fn write_config(&mut self, offset: u64, data: &[u8])
        requires
            offset + data@.len() <= u64::MAX,
        ensures
            final(self)@ == (MemoryView { config_space: final(self).config_space, ..old(self)@ }),
            config_write_fits(CONFIG_SPACE_SIZE as nat, offset, data@.len()) ==> config_bytes(
                final(self).config_space,
            ) == config_write_result(config_bytes(old(self).config_space), offset, data@),
            !config_write_fits(CONFIG_SPACE_SIZE as nat, offset, data@.len())
                ==> final(self).config_space == old(self).config_space,
    {
        self.config_space.write(offset, data);
    }

    /// Whether the device has been activated.
    pub fn is_activated(&self) -> (active: bool)
        ensures
            active == self.activated,
    {
        self.activated
    }

    /// Activates the device, given whether the activation event could be
    /// signalled; when it could not, the device is left inactive and the
    /// call fails.
    pub fn activate(&mut self, activate_evt_signalled: bool) -> (res: Result<(), ActivateError>)
        ensures
            final(self)@ == (MemoryView { activated: activate_evt_signalled, ..old(self)@ }),
            res == (if activate_evt_signalled {
                Ok::<(), ActivateError>(())
            } else {
                Err(ActivateError::EventFd)
            }),
    {
        if !activate_evt_signalled {
            self.activated = false;
            return Err(ActivateError::EventFd);
        }
        self.activated = true;
        Ok(())
    }

    /// Whether a request for `size` bytes at `addr` lies in the usable region.
    pub fn is_request_range_valid(&self, addr: u64, size: u64) -> (valid: bool)
        requires
            self.config_space.block_size > 0,
            self.config_space.addr + self.config_space.usable_region_size <= u64::MAX,
        ensures
            valid == self@.range_valid(addr, size as int),
    {
        let usable_region_end = self.config_space.addr + self.config_space.usable_region_size;
        let end_past_usable = match addr.checked_add(size) {
            Some(end) => end > usable_region_end,
            None => false,
        };
        if addr % self.block_size() != 0 || size == 0 || addr < self.config_space.addr
            || end_past_usable {
            return false;
        }
        true
    }

    /// Index of the block at guest address `addr`, which is in the region.
    fn block_index(&self, addr: u64) -> (index: usize)
        requires
            self.config_space.block_size > 0,
            addr >= self.config_space.addr,
        ensures
            index == self@.first_block(addr),
    {
        let offset = addr - self.config_space.addr;
        #[verifier::truncate]
        ((offset / self.block_size()) as usize)
    }

    /// Handles a guest request to plug `nb_blocks` blocks at `addr`.
    pub fn process_plug(&mut self, addr: u64, nb_blocks: u16) -> (resp: (u16, u16))
        requires
            old(self)@.plug_in_bounds(addr, nb_blocks),
        ensures
            final(self)@ == (if old(self)@.can_plug(addr, nb_blocks) {
                old(self)@.after_plug(addr, nb_blocks)
            } else {
                old(self)@
            }),
            resp == (if old(self)@.can_plug(addr, nb_blocks) {
                (VIRTIO_MEM_RESP_ACK, 0u16)
            } else {
                (VIRTIO_MEM_RESP_ERROR, 0u16)
            }),
    {
        let plug_size = nb_blocks as u64 * self.block_size();
        if !self.is_request_range_valid(addr, plug_size) {
            return (VIRTIO_MEM_RESP_ERROR, 0);
        }
        let first_block_index = self.block_index(addr);
        if self.memory_bitmap.is_range_state(first_block_index, nb_blocks, false) {
            return (VIRTIO_MEM_RESP_ERROR, 0);
        }
        self.memory_bitmap.set_range_state(first_block_index, nb_blocks, true);
        self.config_space.plugged_size = self.config_space.plugged_size + plug_size;
        (VIRTIO_MEM_RESP_ACK, 0)
    }

    /// Handles a guest request for the plug state of `nb_blocks` blocks at `addr`.
    pub fn process_state(&mut self, addr: u64, nb_blocks: u16) -> (resp: (u16, u16))
        requires
            old(self)@.range_request_in_bounds(nb_blocks),
        ensures
            final(self)@ == old(self)@,
            resp == (if old(self)@.range_valid(addr, old(self)@.request_size(nb_blocks)) {
                (VIRTIO_MEM_RESP_ACK, old(self)@.range_state(addr, nb_blocks))
            } else {
                (VIRTIO_MEM_RESP_ERROR, 0u16)
            }),
    {
        let size = nb_blocks as u64 * self.block_size();
        if !self.is_request_range_valid(addr, size) {
            return (VIRTIO_MEM_RESP_ERROR, 0);
        }
        let first_block_index = self.block_index(addr);
        let range_state = if self.memory_bitmap.is_range_state(first_block_index, nb_blocks, true) {
            VIRTIO_MEM_STATE_PLUGGED
        } else if self.memory_bitmap.is_range_state(first_block_index, nb_blocks, false) {
            VIRTIO_MEM_STATE_UNPLUGGED
        } else {
            VIRTIO_MEM_STATE_MIXED
        };
        (VIRTIO_MEM_RESP_ACK, range_state)
    }

    /// The host memory an unplug request of `nb_blocks` blocks at `addr` asks
    /// the host to release, as `(host address, size)`: `Some` exactly when the
    /// request passes the device's checks.
    pub fn unplug_release_range(&self, addr: u64, nb_blocks: u16) -> (range: Option<(u64, u64)>)
        requires
            self@.range_request_in_bounds(nb_blocks),
            self@.can_unplug(addr, nb_blocks) ==> self.host_addr + (addr - self.config_space.addr)
                <= u64::MAX,
        ensures
            range == (if self@.can_unplug(addr, nb_blocks) {
                Some(
                    (
                        (self.host_addr + (addr - self.config_space.addr)) as u64,
                        self@.request_size(nb_blocks) as u64,
                    ),
                )
            } else {
                None
            }),
    {
        let unplug_size = nb_blocks as u64 * self.block_size();
        if !self.is_request_range_valid(addr, unplug_size) {
            return None;
        }
        let first_block_index = self.block_index(addr);
        if self.memory_bitmap.is_range_state(first_block_index, nb_blocks, true) {
            return None;
        }
        let offset = addr - self.config_space.addr;
        Some((self.host_addr + offset, unplug_size))
    }

    /// Handles a guest request to unplug `nb_blocks` blocks at `addr`, where
    /// `release_result` is what releasing the host memory of
    /// `unplug_release_range` returned (0 on success); it is not looked at
    /// when the request fails the device's checks.
    pub fn process_unplug(&mut self, addr: u64, nb_blocks: u16, release_result: i32) -> (resp: (
        u16,
        u16,
    ))
        requires
            old(self)@.unplug_in_bounds(addr, nb_blocks, release_result),
        ensures
            final(self)@ == (if old(self)@.can_unplug(addr, nb_blocks) && release_result == 0 {
                old(self)@.after_unplug(addr, nb_blocks)
            } else {
                old(self)@
            }),
            resp == (if old(self)@.can_unplug(addr, nb_blocks) && release_result == 0 {
                (VIRTIO_MEM_RESP_ACK, 0u16)
            } else {
                (VIRTIO_MEM_RESP_ERROR, 0u16)
            }),
    {
        let unplug_size = nb_blocks as u64 * self.block_size();
        if !self.is_request_range_valid(addr, unplug_size) {
            return (VIRTIO_MEM_RESP_ERROR, 0);
        }
        let first_block_index = self.block_index(addr);
        if self.memory_bitmap.is_range_state(first_block_index, nb_blocks, true) {
            return (VIRTIO_MEM_RESP_ERROR, 0);
        }
        if release_result != 0 {
            return (VIRTIO_MEM_RESP_ERROR, 0);
        }
        self.memory_bitmap.set_range_state(first_block_index, nb_blocks, false);
        self.config_space.plugged_size = self.config_space.plugged_size - unplug_size;
        (VIRTIO_MEM_RESP_ACK, 0)
    }

    /// The host memory an unplug-all request asks the host to release, as
    /// `(host address, size)`: the whole region.
    pub fn unplug_all_release_range(&self) -> (range: (u64, u64))
        ensures
            range == (self.host_addr, self.config_space.region_size),
    {
        (self.host_addr, self.region_size())
    }

    /// Handles a guest request to unplug every block, where `release_result`
    /// is what releasing the host memory of `unplug_all_release_range`
    /// returned (0 on success).
    pub fn process_unplug_all(&mut self, release_result: i32) -> (resp: (u16, u16))
        requires
            old(self)@.unplug_all_in_bounds(release_result),
        ensures
            final(self)@ == (if release_result == 0 {
                old(self)@.after_unplug_all()
            } else {
                old(self)@
            }),
            resp == (if release_result == 0 {
                (VIRTIO_MEM_RESP_ACK, 0u16)
            } else {
                (VIRTIO_MEM_RESP_ERROR, 0u16)
            }),
    {
        let region_size = self.region_size();
        let block_size = self.block_size();
        if release_result != 0 {
            return (VIRTIO_MEM_RESP_ERROR, 0);
        }
        let count: u16 = #[verifier::truncate] ((region_size / block_size) as u16);
        self.memory_bitmap.set_range_state(0, count, false);
        self.config_space.plugged_size = 0;
        (VIRTIO_MEM_RESP_ACK, 0)
    }

    /// Whether no arithmetic of a range request of `nb_blocks` blocks overflows.
    pub fn range_request_in_bounds(&self, nb_blocks: u16) -> (ok: bool)
        ensures
            ok == self@.range_request_in_bounds(nb_blocks),
    {
        let block_size = self.block_size();
        block_size > 0 && (nb_blocks as u64).checked_mul(block_size).is_some()
            && self.config_space.addr.checked_add(self.config_space.usable_region_size).is_some()
    }

    /// Whether a plug request of `nb_blocks` blocks at `addr` is carried out.
    pub fn can_plug(&self, addr: u64, nb_blocks: u16) -> (res: bool)
        requires
            self@.range_request_in_bounds(nb_blocks),
        ensures
            res == self@.can_plug(addr, nb_blocks),
    {
        let size = nb_blocks as u64 * self.block_size();
        if !self.is_request_range_valid(addr, size) {
            return false;
        }
        let first_block_index = self.block_index(addr);
        !self.memory_bitmap.is_range_state(first_block_index, nb_blocks, false)
    }

    /// Whether an unplug request of `nb_blocks` blocks at `addr` passes the
    /// device's checks.
    pub fn can_unplug(&self, addr: u64, nb_blocks: u16) -> (res: bool)
        requires
            self@.range_request_in_bounds(nb_blocks),
        ensures
            res == self@.can_unplug(addr, nb_blocks),
    {
        let size = nb_blocks as u64 * self.block_size();
        if !self.is_request_range_valid(addr, size) {
            return false;
        }
        let first_block_index = self.block_index(addr);
        !self.memory_bitmap.is_range_state(first_block_index, nb_blocks, true)
    }

    /// Whether working out the host memory that `req` asks to release
    /// overflows no arithmetic.
    pub fn release_in_bounds(&self, req: &VirtioMemReq) -> (ok: bool)
        ensures
            ok == self@.release_in_bounds(*req),
    {
        if req.req_type == VIRTIO_MEM_REQ_UNPLUG {
            let addr = req.data.addr;
            let nb_blocks = req.data.nb_blocks;
            if !self.range_request_in_bounds(nb_blocks) {
                return false;
            }
            if !self.can_unplug(addr, nb_blocks) {
                return true;
            }
            self.host_addr.checked_add(addr - self.config_space.addr).is_some()
        } else {
            true
        }
    }

    /// Whether handling `req`, the host release having returned
    /// `release_result`, overflows no arithmetic.
    pub fn request_in_bounds(&self, req: &VirtioMemReq, release_result: i32) -> (ok: bool)
        ensures
            ok == self@.request_in_bounds(*req, release_result),
    {
        let addr = req.data.addr;
        let nb_blocks = req.data.nb_blocks;
        let req_type = req.req_type;
        if req_type == VIRTIO_MEM_REQ_PLUG {
            if !self.range_request_in_bounds(nb_blocks) {
                return false;
            }
            if !self.can_plug(addr, nb_blocks) {
                return true;
            }
            self.config_space.plugged_size.checked_add(nb_blocks as u64 * self.block_size()).is_some()
        } else if req_type == VIRTIO_MEM_REQ_UNPLUG {
            if !self.range_request_in_bounds(nb_blocks) {
                return false;
            }
            if !self.can_unplug(addr, nb_blocks) {
                return true;
            }
            self.host_addr.checked_add(addr - self.config_space.addr).is_some() && (release_result
                != 0 || self.config_space.plugged_size >= nb_blocks as u64 * self.block_size())
        } else if req_type == VIRTIO_MEM_REQ_UNPLUG_ALL {
            release_result != 0 || self.block_size() > 0
        } else if req_type == VIRTIO_MEM_REQ_STATE {
            self.range_request_in_bounds(nb_blocks)
        } else {
            true
        }
    }

    /// The host memory that handling `req` asks the host to release first,
    /// as `(host address, size)`, if any.
    pub fn release_for_request(&self, req: &VirtioMemReq) -> (range: Option<(u64, u64)>)
        requires
            self@.release_in_bounds(*req),
        ensures
            range == self@.release_for(*req),
    {
        if req.req_type == VIRTIO_MEM_REQ_UNPLUG {
            self.unplug_release_range(req.data.addr, req.data.nb_blocks)
        } else if req.req_type == VIRTIO_MEM_REQ_UNPLUG_ALL {
            Some(self.unplug_all_release_range())
        } else {
            None
        }
    }

    /// Handles one guest request, where `release_result` is what releasing
    /// the host memory of `release_for_request` returned (0 on success; not
    /// looked at when no release was asked for). Answers with the response
    /// for the guest, or fails on an unknown request type.
    pub fn process_request(&mut self, req: &VirtioMemReq, release_result: i32) -> (res: Result<
        VirtioMemResp,
        MemoryDeviceError,
    >)
        requires
            old(self)@.request_in_bounds(*req, release_result),
        ensures
            final(self)@ == old(self)@.after_request(*req, release_result),
            match old(self)@.request_reply(*req, release_result) {
                Some(reply) => res is Ok && res->Ok_0.resp_type == reply.0 && res->Ok_0.resp_state
                    == reply.1 && res->Ok_0.padding@ == seq![0u16, 0u16, 0u16],
                None => res == Err::<VirtioMemResp, MemoryDeviceError>(
                    MemoryDeviceError::UnknownRequestType(req.req_type),
                ),
            },
    {
        let addr = req.data.addr;
        let nb_blocks = req.data.nb_blocks;
        let (resp_type, resp_state) = if req.req_type == VIRTIO_MEM_REQ_PLUG {
            self.process_plug(addr, nb_blocks)
        } else if req.req_type == VIRTIO_MEM_REQ_UNPLUG {
            self.process_unplug(addr, nb_blocks, release_result)
        } else if req.req_type == VIRTIO_MEM_REQ_UNPLUG_ALL {
            self.process_unplug_all(release_result)
        } else if req.req_type == VIRTIO_MEM_REQ_STATE {
            self.process_state(addr, nb_blocks)
        } else {
            return Err(MemoryDeviceError::UnknownRequestType(req.req_type));
        };
        Ok(VirtioMemResp::new(resp_type, resp_state))
    }

    /// Returns the identifier of the device.
    pub fn id(&self) -> (id: &str)
        ensures
            id@ == self.id@,
    {
        self.id.as_str()
    }

    /// Returns the region size (in Bytes) of the device.
    pub fn region_size(&self) -> (size: u64)
        ensures
            size == self.config_space.region_size,
    {
        self.config_space.region_size
    }

    /// Returns the block size (in Bytes) of the device.
    pub fn block_size(&self) -> (size: u64)
        ensures
            size == self.config_space.block_size,
    {
        self.config_space.block_size
    }

    /// Returns the requested size (in Bytes) of the device.
    pub fn requested_size(&self) -> (size: u64)
        ensures
            size == self.config_space.requested_size,
    {
        self.config_space.requested_size
    }

    /// Returns the node id of the device.
    pub fn node_id(&self) -> (node_id: u16)
        ensures
            node_id == self.config_space.node_id,
    {
        self.config_space.node_id
    }
}

} // verus!
