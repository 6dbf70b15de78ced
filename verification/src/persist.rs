use vstd::prelude::*;
use crate::bitmap::MemBitmap;
use crate::config_space::ConfigSpace;
use crate::device::{new_device_error, Memory, MemoryView, TYPE_MEMORY};
use crate::error::MemoryDeviceError;

verus! {

/// The generic virtio state of a device that a snapshot keeps.
#[derive(Clone, Copy, Debug, PartialEq, Eq, Structural)]
pub struct VirtioDeviceState {
    pub device_type: u32,
    pub avail_features: u64,
    pub acked_features: u64,
    pub activated: bool,
}

/// The configuration space fields that a snapshot keeps.
#[derive(Clone, Copy, Debug, PartialEq, Eq, Structural)]
pub struct VirtioMemConfigSpaceState {
    pub block_size: u64,
    pub node_id: u16,
    pub addr: u64,
    pub region_size: u64,
    pub usable_region_size: u64,
    pub plugged_size: u64,
    pub requested_size: u64,
}

/// The state of a memory device that a snapshot keeps.
#[derive(Clone, Debug)]
pub struct VirtioMemState {
    pub virtio_state: VirtioDeviceState,
    pub config_space: VirtioMemConfigSpaceState,
    pub id: String,
    pub memory_bitmap: MemBitmap,
    pub host_addr: u64,
}

/// The device that restoring `state` gives: a fresh device made from the
/// kept block size, node id, region size, id and requested size, then given
/// the kept features, activation, start address, plugged size, host address
/// and block states, with both addresses marked as set.
pub open spec fn restored_view(state: VirtioMemState) -> MemoryView {
    MemoryView {
        avail_features: state.virtio_state.avail_features,
        acked_features: state.virtio_state.acked_features,
        config_space: ConfigSpace {
            block_size: state.config_space.block_size,
            node_id: state.config_space.node_id,
            _padding: [0u8, 0u8, 0u8, 0u8, 0u8, 0u8],
            addr: state.config_space.addr,
            region_size: state.config_space.region_size,
            usable_region_size: 0,
            plugged_size: state.config_space.plugged_size,
            requested_size: state.config_space.requested_size,
        },
        activated: state.virtio_state.activated,
        id: state.id@,
        addr_is_set: true,
        blocks: state.memory_bitmap@,
        host_addr: state.host_addr,
        host_addr_is_set: true,
    }
}

/// `state` is what a snapshot of the device `v` keeps.
pub open spec fn is_saved_state(state: VirtioMemState, v: MemoryView) -> bool {
    &&& state.virtio_state == VirtioDeviceState {
        device_type: TYPE_MEMORY,
        avail_features: v.avail_features,
        acked_features: v.acked_features,
        activated: v.activated,
    }
    &&& state.config_space == VirtioMemConfigSpaceState {
        block_size: v.config_space.block_size,
        node_id: v.config_space.node_id,
        addr: v.config_space.addr,
        region_size: v.config_space.region_size,
        usable_region_size: v.config_space.usable_region_size,
        plugged_size: v.config_space.plugged_size,
        requested_size: v.config_space.requested_size,
    }
    &&& state.id@ == v.id
    &&& state.memory_bitmap@ == v.blocks
    &&& state.host_addr == v.host_addr
}

impl Memory {
    /// The state of the device that a snapshot keeps.
    pub fn save(&self) -> (state: VirtioMemState)
        ensures
            is_saved_state(state, self@),
    {
        let bitmap = MemBitmap { bitmap: self.memory_bitmap.bitmap.clone() };
        assert(bitmap@ =~= self.memory_bitmap@);
        VirtioMemState {
            virtio_state: VirtioDeviceState {
                device_type: self.device_type(),
                avail_features: self.avail_features,
                acked_features: self.acked_features,
                activated: self.is_activated(),
            },
            config_space: VirtioMemConfigSpaceState {
                block_size: self.block_size(),
                node_id: self.node_id(),
                addr: self.config_space.addr,
                region_size: self.config_space.region_size,
                usable_region_size: self.config_space.usable_region_size,
                plugged_size: self.config_space.plugged_size,
                requested_size: self.config_space.requested_size,
            },
            id: self.id.clone(),
            memory_bitmap: bitmap,
            host_addr: self.host_addr,
        }
    }

    /// Rebuilds a device from a snapshot `state`, on a host whose page size
    /// is `page_size`. Fails as making a fresh device with the kept sizes
    /// fails.
    pub fn restore(state: &VirtioMemState, page_size: u64) -> (res: Result<Memory, MemoryDeviceError>)
        requires
            state.config_space.block_size != 0 ==> page_size > 0,
        ensures
            match new_device_error(
                state.config_space.block_size,
                state.config_space.region_size,
                state.config_space.requested_size,
                page_size,
            ) {
                Some(e) => res is Err && res->Err_0 == e,
                None => res is Ok && res->Ok_0@ == restored_view(*state),
            },
    {
        let mut virtio_mem = Memory::new(
            state.config_space.block_size,
            Some(state.config_space.node_id),
            state.config_space.region_size,
            state.id.clone(),
            state.config_space.requested_size,
            page_size,
        )?;
        virtio_mem.avail_features = state.virtio_state.avail_features;
        virtio_mem.acked_features = state.virtio_state.acked_features;
        virtio_mem.config_space.addr = state.config_space.addr;
        virtio_mem.config_space.plugged_size = state.config_space.plugged_size;
        virtio_mem.addr_is_set = true;
        virtio_mem.host_addr_is_set = true;
        virtio_mem.host_addr = state.host_addr;
        let bitmap = MemBitmap { bitmap: state.memory_bitmap.bitmap.clone() };
        assert(bitmap@ =~= state.memory_bitmap@);
        virtio_mem.memory_bitmap = bitmap;
        if state.virtio_state.activated {
            virtio_mem.activated = true;
        }
        proof {
            broadcast use vstd::array::axiom_array_ext_equal;
            assert(virtio_mem.config_space._padding =~= [0u8, 0u8, 0u8, 0u8, 0u8, 0u8]);
        }
        Ok(virtio_mem)
    }
}

} // verus!
