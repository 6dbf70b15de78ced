use vstd::prelude::*;
use crate::bitmap::{range_in_state, with_range_state};
use crate::config_space::{config_read_result, config_write_result, CONFIG_SPACE_SIZE};
use crate::device::{MemoryView, KIB};
use crate::error::MemoryDeviceError;
use crate::persist::{is_saved_state, restored_view};
use crate::le::{u16_le_bytes, u64_le_bytes};
use crate::config_space::config_bytes;
use crate::request::{
    VirtioMemReq, VIRTIO_MEM_RESP_ACK, VIRTIO_MEM_STATE_MIXED, VIRTIO_MEM_STATE_PLUGGED,
    VIRTIO_MEM_STATE_UNPLUGGED,
};
use crate::config_space::ConfigSpace;

verus! {

/// Setting a range of blocks to a state and then asking whether the range
/// is in that state answers yes.
pub proof fn lemma_set_range_then_query(blocks: Seq<bool>, first: int, nb: int, plugged: bool)
    ensures
        range_in_state(with_range_state(blocks, first, nb, plugged), first, nb, plugged),
{
}

/// Setting a range of blocks keeps the number of blocks and every block
/// outside the range.
pub proof fn lemma_set_range_frame(blocks: Seq<bool>, first: int, nb: int, plugged: bool)
    ensures
        with_range_state(blocks, first, nb, plugged).len() == blocks.len(),
        forall|i: int|
            0 <= i < blocks.len() && !(first <= i < first + nb) ==> #[trigger] with_range_state(
                blocks,
                first,
                nb,
                plugged,
            )[i] == blocks[i],
{
}

/// Setting a range of blocks to a state twice is the same as setting it once.
pub proof fn lemma_set_range_idempotent(blocks: Seq<bool>, first: int, nb: int, plugged: bool)
    ensures
        with_range_state(with_range_state(blocks, first, nb, plugged), first, nb, plugged)
            == with_range_state(blocks, first, nb, plugged),
{
    assert(with_range_state(with_range_state(blocks, first, nb, plugged), first, nb, plugged)
        =~= with_range_state(blocks, first, nb, plugged));
}

/// A request the device refuses (answered with anything but an
/// acknowledgement, or of an unknown type) leaves the device unchanged.
pub proof fn lemma_refused_request_changes_nothing(v: MemoryView, req: VirtioMemReq, release_result: i32)
    requires
        match v.request_reply(req, release_result) {
            Some(reply) => reply.0 != VIRTIO_MEM_RESP_ACK,
            None => true,
        },
    ensures
        v.after_request(req, release_result) == v,
{
}

/// A guest request changes nothing but the block states and the plugged
/// size, and keeps the number of blocks.
pub proof fn lemma_request_frame(v: MemoryView, req: VirtioMemReq, release_result: i32)
    ensures
        ({
            let after = v.after_request(req, release_result);
            &&& after.blocks.len() == v.blocks.len()
            &&& after == MemoryView {
                blocks: after.blocks,
                config_space: ConfigSpace {
                    plugged_size: after.config_space.plugged_size,
                    ..v.config_space
                },
                ..v
            }
        }),
{
}

/// After a plug request is carried out, the same range is a valid request
/// and its state is reported as plugged; the plugged size grew by the size
/// of the range.
pub proof fn lemma_plug_then_state(v: MemoryView, addr: u64, nb: u16)
    requires
        v.can_plug(addr, nb),
        v.plug_in_bounds(addr, nb),
    ensures
        v.after_plug(addr, nb).range_valid(addr, v.request_size(nb)),
        v.after_plug(addr, nb).range_state(addr, nb) == VIRTIO_MEM_STATE_PLUGGED,
        v.after_plug(addr, nb).config_space.plugged_size == v.config_space.plugged_size
            + v.request_size(nb),
{
    let after = v.after_plug(addr, nb);
    let first = v.first_block(addr);
    assert(after.first_block(addr) == first);
    lemma_set_range_then_query(v.blocks, first, nb as int, true);
    let i = choose|i: int| first <= i < first + nb && 0 <= i < v.blocks.len() && v.blocks[i] != false;
    assert(after.blocks[i] == true);
}

/// After an unplug request is carried out, the same range is a valid
/// request and its state is reported as unplugged; the plugged size shrank
/// by the size of the range.
pub proof fn lemma_unplug_then_state(v: MemoryView, addr: u64, nb: u16)
    requires
        v.can_unplug(addr, nb),
        v.unplug_in_bounds(addr, nb, 0),
    ensures
        v.after_unplug(addr, nb).range_valid(addr, v.request_size(nb)),
        v.after_unplug(addr, nb).range_state(addr, nb) == VIRTIO_MEM_STATE_UNPLUGGED,
        v.after_unplug(addr, nb).config_space.plugged_size == v.config_space.plugged_size
            - v.request_size(nb),
{
    let after = v.after_unplug(addr, nb);
    let first = v.first_block(addr);
    assert(after.first_block(addr) == first);
    lemma_set_range_then_query(v.blocks, first, nb as int, false);
    let i = choose|i: int| first <= i < first + nb && 0 <= i < v.blocks.len() && v.blocks[i] != true;
    assert(after.blocks[i] == false);
}

/// After an unplug-all request is carried out on a device whose block count
/// is at most the number of blocks the request clears, every block is
/// unplugged and the plugged size is zero.
pub proof fn lemma_unplug_all_clears(v: MemoryView)
    requires
        v.blocks.len() <= v.unplug_all_count(),
    ensures
        forall|i: int| 0 <= i < v.blocks.len() ==> !#[trigger] v.after_unplug_all().blocks[i],
        v.after_unplug_all().blocks.len() == v.blocks.len(),
        v.after_unplug_all().config_space.plugged_size == 0,
{
}

/// Reading the configuration space at the offset of a write that fits, into
/// a buffer as long as the bytes written, gives back the bytes written.
pub proof fn lemma_config_write_then_read(bytes: Seq<u8>, offset: u64, data: Seq<u8>, buf: Seq<u8>)
    requires
        bytes.len() == CONFIG_SPACE_SIZE,
        offset + data.len() <= CONFIG_SPACE_SIZE,
        buf.len() == data.len(),
    ensures
        config_read_result(config_write_result(bytes, offset, data), offset, buf) == data,
{
    let written = config_write_result(bytes, offset, data);
    assert(written.len() == CONFIG_SPACE_SIZE);
    if offset < CONFIG_SPACE_SIZE {
        assert(config_read_result(written, offset, buf) =~= data);
    }
}

/// Writing back, at any offset, the bytes the configuration space holds
/// there changes nothing.
pub proof fn lemma_config_write_same_bytes(bytes: Seq<u8>, offset: u64, len: nat)
    requires
        offset + len <= bytes.len(),
    ensures
        config_write_result(bytes, offset, bytes.subrange(offset as int, offset + len))
            == bytes.subrange(0, offset as int) + bytes.subrange(offset as int, offset + len)
            + bytes.subrange(offset + len, bytes.len() as int),
        config_write_result(bytes, offset, bytes.subrange(offset as int, offset + len)) == bytes,
{
    assert(config_write_result(bytes, offset, bytes.subrange(offset as int, offset + len))
        =~= bytes);
}

/// Restoring the snapshot of a device gives the device back, except that
/// the usable region size reads zero, the padding bytes read zero and both
/// addresses are marked as set.
pub proof fn lemma_restore_after_save(v: MemoryView, state: crate::persist::VirtioMemState)
    requires
        is_saved_state(state, v),
    ensures
        restored_view(state) == (MemoryView {
            config_space: ConfigSpace {
                usable_region_size: 0,
                _padding: [0u8, 0u8, 0u8, 0u8, 0u8, 0u8],
                ..v.config_space
            },
            addr_is_set: true,
            host_addr_is_set: true,
            ..v
        }),
{
}

/// Once a change of the requested size to `kib` KiB succeeds, the
/// configuration reports a requested size of `kib` KiB.
pub proof fn lemma_requested_size_reported(v: MemoryView, kib: u64)
    requires
        kib * KIB <= u64::MAX,
        v.requested_size_change(kib) is Ok,
    ensures
        v.requested_size_change(kib)->Ok_0.config_space.requested_size / KIB == kib,
{
}

/// An inactive device refuses every change of the requested size.
pub proof fn lemma_inactive_refuses_requested_size(v: MemoryView, kib: u64)
    requires
        !v.activated,
    ensures
        v.requested_size_change(kib) == Err::<MemoryView, MemoryDeviceError>(
            MemoryDeviceError::DeviceNotActive,
        ),
{
}

/// Setting the start address of the region marks it as set, so that every
/// later attempt is refused, and changes nothing else.
pub proof fn lemma_start_addr_set_once(v: MemoryView, addr: u64)
    ensures
        v.with_start_addr(addr).addr_is_set,
        v.with_start_addr(addr).config_space.addr == addr,
        v.with_start_addr(addr).blocks == v.blocks,
        v.with_start_addr(addr).host_addr == v.host_addr,
{
}

/// Setting the host address of the region marks it as set, so that every
/// later attempt is refused, and changes nothing else.
pub proof fn lemma_host_addr_set_once(v: MemoryView, addr: u64)
    ensures
        v.with_host_addr(addr).host_addr_is_set,
        v.with_host_addr(addr).host_addr == addr,
        v.with_host_addr(addr).config_space == v.config_space,
        v.with_host_addr(addr).blocks == v.blocks,
{
}

/// The block a request at guest address `addr` starts at is the number of
/// whole blocks between the region start and `addr`.
pub proof fn lemma_first_block_is_offset_in_blocks(v: MemoryView, addr: u64)
    requires
        v.config_space.block_size > 0,
        addr >= v.config_space.addr,
        (addr - v.config_space.addr) / (v.config_space.block_size as int) <= usize::MAX,
    ensures
        v.first_block(addr) == (addr - v.config_space.addr) / (v.config_space.block_size as int),
        v.first_block(addr) * v.config_space.block_size <= addr - v.config_space.addr,
        addr - v.config_space.addr < (v.first_block(addr) + 1) * v.config_space.block_size,
{
    let off = addr - v.config_space.addr;
    let bs = v.config_space.block_size as int;
    let q = off / bs;
    assert(q * bs <= off && off < (q + 1) * bs) by (nonlinear_arith)
        requires
            bs > 0,
            off >= 0,
            q == off / bs,
    ;
}

/// A request range is valid exactly when it is block aligned, not empty,
/// starts at or after the region start and, unless its end overflows, ends
/// within the usable region.
pub proof fn lemma_valid_range_in_usable_region(v: MemoryView, addr: u64, size: int)
    ensures
        v.range_valid(addr, size) <==> (addr % v.config_space.block_size == 0 && size != 0 && addr
            >= v.config_space.addr && (addr + size <= u64::MAX ==> addr + size <= v.config_space.addr
            + v.config_space.usable_region_size)),
{
}

/// The state reported for a valid range: plugged exactly when every block
/// of the range (that exists) is plugged, unplugged exactly when not all are
/// plugged and every one is unplugged, mixed exactly when the range holds a
/// plugged block and an unplugged block.
pub proof fn lemma_state_reports_blocks(v: MemoryView, addr: u64, nb: u16)
    requires
        v.config_space.block_size > 0,
        v.range_valid(addr, v.request_size(nb)),
        (addr - v.config_space.addr) / (v.config_space.block_size as int) <= usize::MAX,
    ensures
        ({
            let first = (addr - v.config_space.addr) / (v.config_space.block_size as int);
            let end = first + nb;
            &&& (v.range_state(addr, nb) == VIRTIO_MEM_STATE_PLUGGED) <==> (forall|i: int|
                first <= i < end && 0 <= i < v.blocks.len() ==> #[trigger] v.blocks[i])
            &&& (v.range_state(addr, nb) == VIRTIO_MEM_STATE_UNPLUGGED) <==> ((exists|i: int|
                first <= i < end && 0 <= i < v.blocks.len() && !#[trigger] v.blocks[i]) && (forall|
                i: int|
                first <= i < end && 0 <= i < v.blocks.len() ==> !#[trigger] v.blocks[i]))
            &&& (v.range_state(addr, nb) == VIRTIO_MEM_STATE_MIXED) <==> ((exists|i: int|
                first <= i < end && 0 <= i < v.blocks.len() && #[trigger] v.blocks[i]) && (exists|
                i: int|
                first <= i < end && 0 <= i < v.blocks.len() && !#[trigger] v.blocks[i]))
        }),
{
    lemma_first_block_is_offset_in_blocks(v, addr);
}

/// A plug request is carried out exactly when its range is valid and holds
/// at least one plugged block; it then plugs every existing block of the
/// range, keeps every other block, adds the size of the range to the plugged
/// size and changes nothing else.
pub proof fn lemma_plug_effect(v: MemoryView, addr: u64, nb: u16)
    requires
        v.plug_in_bounds(addr, nb),
        (addr - v.config_space.addr) / (v.config_space.block_size as int) <= usize::MAX,
    ensures
        ({
            let first = (addr - v.config_space.addr) / (v.config_space.block_size as int);
            &&& v.can_plug(addr, nb) <==> (v.range_valid(addr, nb * v.config_space.block_size)
                && exists|i: int| first <= i < first + nb && 0 <= i < v.blocks.len() && #[trigger] v.blocks[i])
            &&& v.can_plug(addr, nb) ==> {
                let after = v.after_plug(addr, nb);
                &&& after.blocks.len() == v.blocks.len()
                &&& forall|i: int| 0 <= i < v.blocks.len() ==> #[trigger] after.blocks[i] == (if first
                    <= i < first + nb {
                    true
                } else {
                    v.blocks[i]
                })
                &&& after.config_space.plugged_size == v.config_space.plugged_size + nb
                    * v.config_space.block_size
                &&& after == MemoryView {
                    blocks: after.blocks,
                    config_space: ConfigSpace {
                        plugged_size: after.config_space.plugged_size,
                        ..v.config_space
                    },
                    ..v
                }
            }
        }),
{
    if v.range_valid(addr, nb * v.config_space.block_size) {
        lemma_first_block_is_offset_in_blocks(v, addr);
    }
}

/// An unplug request passes the device's checks exactly when its range is
/// valid and holds at least one unplugged block; carried out, it unplugs
/// every existing block of the range, keeps every other block, takes the
/// size of the range off the plugged size and changes nothing else.
pub proof fn lemma_unplug_effect(v: MemoryView, addr: u64, nb: u16)
    requires
        v.unplug_in_bounds(addr, nb, 0),
        (addr - v.config_space.addr) / (v.config_space.block_size as int) <= usize::MAX,
    ensures
        ({
            let first = (addr - v.config_space.addr) / (v.config_space.block_size as int);
            &&& v.can_unplug(addr, nb) <==> (v.range_valid(addr, nb * v.config_space.block_size)
                && exists|i: int| first <= i < first + nb && 0 <= i < v.blocks.len() && !#[trigger] v.blocks[i])
            &&& v.can_unplug(addr, nb) ==> {
                let after = v.after_unplug(addr, nb);
                &&& after.blocks.len() == v.blocks.len()
                &&& forall|i: int| 0 <= i < v.blocks.len() ==> #[trigger] after.blocks[i] == (if first
                    <= i < first + nb {
                    false
                } else {
                    v.blocks[i]
                })
                &&& after.config_space.plugged_size == v.config_space.plugged_size - nb
                    * v.config_space.block_size
                &&& after == MemoryView {
                    blocks: after.blocks,
                    config_space: ConfigSpace {
                        plugged_size: after.config_space.plugged_size,
                        ..v.config_space
                    },
                    ..v
                }
            }
        }),
{
    if v.range_valid(addr, nb * v.config_space.block_size) {
        lemma_first_block_is_offset_in_blocks(v, addr);
    }
}

/// On a device whose bitmap has one entry per block of the region and fewer
/// than 2^16 blocks, a carried-out unplug-all leaves every block unplugged,
/// the plugged size zero and everything else unchanged.
pub proof fn lemma_unplug_all_unplugs_every_block(v: MemoryView)
    requires
        v.config_space.block_size > 0,
        v.blocks.len() == v.config_space.region_size / v.config_space.block_size,
        v.config_space.region_size / v.config_space.block_size < 0x10000,
    ensures
        v.after_unplug_all().blocks.len() == v.blocks.len(),
        forall|i: int| 0 <= i < v.blocks.len() ==> !#[trigger] v.after_unplug_all().blocks[i],
        v.after_unplug_all().config_space.plugged_size == 0,
        v.after_unplug_all() == (MemoryView {
            blocks: v.after_unplug_all().blocks,
            config_space: ConfigSpace { plugged_size: 0, ..v.config_space },
            ..v
        }),
{
}

/// A change of the requested size to `kib` KiB succeeds exactly on an active
/// device when `kib` KiB is at most the usable region size and a multiple of
/// the block size; it then sets the requested size to `kib` KiB and changes
/// nothing else.
pub proof fn lemma_requested_size_change_accepts(v: MemoryView, kib: u64)
    requires
        v.config_space.block_size > 0,
    ensures
        v.requested_size_change(kib) is Ok <==> (v.activated && kib * 1024 <= v.config_space.usable_region_size
            && (kib * 1024) % (v.config_space.block_size as int) == 0),
        v.requested_size_change(kib) is Ok ==> v.requested_size_change(kib)->Ok_0 == (MemoryView {
            config_space: ConfigSpace {
                requested_size: (kib * 1024) as u64,
                ..v.config_space
            },
            ..v
        }),
        v.requested_size_change(kib) is Ok ==> v.requested_size_change(
            kib,
        )->Ok_0.config_space.requested_size == kib * 1024,
{
}

/// A freshly made device has no block plugged and a plugged size of zero,
/// nothing set and nothing acknowledged, one unplugged block per block of
/// the region, and the sizes it was made with.
pub proof fn lemma_new_device_has_nothing_plugged(
    v: MemoryView,
    block_size: u64,
    node_id: Option<u16>,
    region_size: u64,
    id: Seq<char>,
    requested_size: u64,
)
    requires
        block_size > 0,
        v.is_new_device(block_size, node_id, region_size, id, requested_size),
    ensures
        v.config_space.plugged_size == 0,
        forall|i: int| 0 <= i < v.blocks.len() ==> !#[trigger] v.blocks[i],
        v.blocks.len() == ((region_size / block_size) as usize) as int,
        v.config_space.block_size == block_size,
        v.config_space.region_size == region_size,
        v.config_space.requested_size == requested_size,
        v.config_space.addr == 0,
        v.host_addr == 0,
        v.id == id,
        v.acked_features == 0,
        !v.activated && !v.addr_is_set && !v.host_addr_is_set,
{
}

/// Each byte of the little-endian image of a `u64` is the corresponding
/// base-256 digit of the value, least significant first.
pub proof fn lemma_u64_le_bytes_digits(x: u64)
    ensures
        u64_le_bytes(x).len() == 8,
        u64_le_bytes(x)[0] == x % 0x100,
        u64_le_bytes(x)[1] == (x / 0x100) % 0x100,
        u64_le_bytes(x)[2] == (x / 0x1_0000) % 0x100,
        u64_le_bytes(x)[3] == (x / 0x100_0000) % 0x100,
        u64_le_bytes(x)[4] == (x / 0x1_0000_0000) % 0x100,
        u64_le_bytes(x)[5] == (x / 0x100_0000_0000) % 0x100,
        u64_le_bytes(x)[6] == (x / 0x1_0000_0000_0000) % 0x100,
        u64_le_bytes(x)[7] == (x / 0x100_0000_0000_0000) % 0x100,
{
    lemma_u64_digits(x);
}

proof fn lemma_u64_digits(x: u64)
    by (bit_vector)
    ensures
        (x as u8) as u64 == x % 0x100,
        ((x >> 8u64) as u8) as u64 == (x / 0x100) % 0x100,
        ((x >> 16u64) as u8) as u64 == (x / 0x1_0000) % 0x100,
        ((x >> 24u64) as u8) as u64 == (x / 0x100_0000) % 0x100,
        ((x >> 32u64) as u8) as u64 == (x / 0x1_0000_0000) % 0x100,
        ((x >> 40u64) as u8) as u64 == (x / 0x100_0000_0000) % 0x100,
        ((x >> 48u64) as u8) as u64 == (x / 0x1_0000_0000_0000) % 0x100,
        ((x >> 56u64) as u8) as u64 == (x / 0x100_0000_0000_0000) % 0x100,
{
}

/// Each byte of the little-endian image of a `u16` is the corresponding
/// base-256 digit of the value, least significant first.
pub proof fn lemma_u16_le_bytes_digits(x: u16)
    ensures
        u16_le_bytes(x).len() == 2,
        u16_le_bytes(x)[0] == x % 0x100,
        u16_le_bytes(x)[1] == x / 0x100,
{
    lemma_u16_digits(x);
}

proof fn lemma_u16_digits(x: u16)
    by (bit_vector)
    ensures
        (x as u8) as u16 == x % 0x100,
        ((x >> 8u16) as u8) as u16 == x / 0x100,
{
}

/// The configuration space image holds each field at its C layout offset:
/// block size at 0, node id at 8, padding at 10..16, start address at 16,
/// region size at 24, usable region size at 32, plugged size at 40 and
/// requested size at 48, each little-endian.
pub proof fn lemma_config_space_layout(cs: ConfigSpace)
    ensures
        config_bytes(cs).len() == CONFIG_SPACE_SIZE,
        config_bytes(cs).subrange(0, 8) == u64_le_bytes(cs.block_size),
        config_bytes(cs).subrange(8, 10) == u16_le_bytes(cs.node_id),
        config_bytes(cs).subrange(10, 16) == cs._padding@,
        config_bytes(cs).subrange(16, 24) == u64_le_bytes(cs.addr),
        config_bytes(cs).subrange(24, 32) == u64_le_bytes(cs.region_size),
        config_bytes(cs).subrange(32, 40) == u64_le_bytes(cs.usable_region_size),
        config_bytes(cs).subrange(40, 48) == u64_le_bytes(cs.plugged_size),
        config_bytes(cs).subrange(48, 56) == u64_le_bytes(cs.requested_size),
{
    let b = config_bytes(cs);
    assert(b.subrange(0, 8) =~= u64_le_bytes(cs.block_size));
    assert(b.subrange(8, 10) =~= u16_le_bytes(cs.node_id));
    assert(b.subrange(10, 16) =~= cs._padding@);
    assert(b.subrange(16, 24) =~= u64_le_bytes(cs.addr));
    assert(b.subrange(24, 32) =~= u64_le_bytes(cs.region_size));
    assert(b.subrange(32, 40) =~= u64_le_bytes(cs.usable_region_size));
    assert(b.subrange(40, 48) =~= u64_le_bytes(cs.plugged_size));
    assert(b.subrange(48, 56) =~= u64_le_bytes(cs.requested_size));
}

/// Reading eight bytes of the configuration space at offset 16 gives the
/// region start address, little-endian.
pub proof fn lemma_read_config_start_addr(cs: ConfigSpace, buf: Seq<u8>)
    requires
        buf.len() == 8,
    ensures
        config_read_result(config_bytes(cs), 16, buf) == u64_le_bytes(cs.addr),
{
    lemma_config_space_layout(cs);
    assert(config_read_result(config_bytes(cs), 16, buf) =~= config_bytes(cs).subrange(16, 24));
}

} // verus!
