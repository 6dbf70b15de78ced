use vstd::prelude::*;
use crate::le::{
    lemma_u16_le_bytes_injective, lemma_u64_le_bytes_injective, push_u16_le, push_u64_le, read_u16_le,
    read_u64_le, u16_le_bytes, u64_le_bytes,
};

verus! {

/// Size in bytes of the device configuration space.
pub const CONFIG_SPACE_SIZE: usize = 56;

/// The virtio-mem device configuration space, as the guest sees it.
#[derive(Clone, Copy, Debug, Default)]
pub struct ConfigSpace {
    pub block_size: u64,
    pub node_id: u16,
    pub _padding: [u8; 6],
    /// Guest physical address where the memory region starts.
    pub addr: u64,
    pub region_size: u64,
    pub usable_region_size: u64,
    pub plugged_size: u64,
    pub requested_size: u64,
}

/// The byte image of a configuration space: its fields in declaration order,
/// each little-endian, the padding bytes as they are.
pub open spec fn config_bytes(cs: ConfigSpace) -> Seq<u8> {
    u64_le_bytes(cs.block_size) + u16_le_bytes(cs.node_id) + cs._padding@ + u64_le_bytes(cs.addr)
        + u64_le_bytes(cs.region_size) + u64_le_bytes(cs.usable_region_size) + u64_le_bytes(
        cs.plugged_size,
    ) + u64_le_bytes(cs.requested_size)
}

/// What a read of the configuration space at `offset` into a buffer holding
/// `data` leaves in the buffer: nothing changes when `offset` is past the
/// space or `offset + data.len()` overflows; otherwise the bytes of the space
/// from `offset` on, as many as fit, are copied to the front of the buffer.
pub open spec fn config_read_result(bytes: Seq<u8>, offset: u64, data: Seq<u8>) -> Seq<u8> {
    if offset >= bytes.len() || offset + data.len() > u64::MAX {
        data
    } else {
        let end = if offset + data.len() < bytes.len() { offset + data.len() } else { bytes.len() as int };
        bytes.subrange(offset as int, end) + data.subrange(end - offset, data.len() as int)
    }
}

/// Whether a write of `len` bytes at `offset` lands inside a space of `size` bytes.
pub open spec fn config_write_fits(size: nat, offset: u64, len: nat) -> bool {
    offset + len <= size
}

/// The byte image after writing `data` at `offset` into `bytes`.
pub open spec fn config_write_result(bytes: Seq<u8>, offset: u64, data: Seq<u8>) -> Seq<u8> {
    bytes.subrange(0, offset as int) + data + bytes.subrange(offset + data.len(), bytes.len() as int)
}

/// The byte image of every configuration space is `CONFIG_SPACE_SIZE` bytes long.
pub proof fn lemma_config_bytes_len(cs: ConfigSpace)
    ensures
        config_bytes(cs).len() == CONFIG_SPACE_SIZE,
{
}

/// A configuration space is determined by its byte image.
pub proof fn lemma_config_bytes_injective(a: ConfigSpace, b: ConfigSpace)
    requires
        config_bytes(a) == config_bytes(b),
    ensures
        a == b,
{
    let sa = config_bytes(a);
    let sb = config_bytes(b);
    assert(sa.subrange(0, 8) =~= u64_le_bytes(a.block_size));
    assert(sb.subrange(0, 8) =~= u64_le_bytes(b.block_size));
    lemma_u64_le_bytes_injective(a.block_size, b.block_size);
    assert(sa.subrange(8, 10) =~= u16_le_bytes(a.node_id));
    assert(sb.subrange(8, 10) =~= u16_le_bytes(b.node_id));
    lemma_u16_le_bytes_injective(a.node_id, b.node_id);
    assert(sa.subrange(10, 16) =~= a._padding@);
    assert(sb.subrange(10, 16) =~= b._padding@);
    assert(a._padding@ =~= b._padding@);
    broadcast use vstd::array::axiom_array_ext_equal;
    assert(a._padding =~= b._padding);
    assert(sa.subrange(16, 24) =~= u64_le_bytes(a.addr));
    assert(sb.subrange(16, 24) =~= u64_le_bytes(b.addr));
    lemma_u64_le_bytes_injective(a.addr, b.addr);
    assert(sa.subrange(24, 32) =~= u64_le_bytes(a.region_size));
    assert(sb.subrange(24, 32) =~= u64_le_bytes(b.region_size));
    lemma_u64_le_bytes_injective(a.region_size, b.region_size);
    assert(sa.subrange(32, 40) =~= u64_le_bytes(a.usable_region_size));
    assert(sb.subrange(32, 40) =~= u64_le_bytes(b.usable_region_size));
    lemma_u64_le_bytes_injective(a.usable_region_size, b.usable_region_size);
    assert(sa.subrange(40, 48) =~= u64_le_bytes(a.plugged_size));
    assert(sb.subrange(40, 48) =~= u64_le_bytes(b.plugged_size));
    lemma_u64_le_bytes_injective(a.plugged_size, b.plugged_size);
    assert(sa.subrange(48, 56) =~= u64_le_bytes(a.requested_size));
    assert(sb.subrange(48, 56) =~= u64_le_bytes(b.requested_size));
    lemma_u64_le_bytes_injective(a.requested_size, b.requested_size);
}

impl ConfigSpace {
    /// The byte image of the configuration space.
    pub fn to_bytes(&self) -> (bytes: Vec<u8>)
        ensures
            bytes@ == config_bytes(*self),
    {
        let mut v: Vec<u8> = Vec::new();
        push_u64_le(&mut v, self.block_size);
        push_u16_le(&mut v, self.node_id);
        let mut i: usize = 0;
        while i < 6
            invariant
                0 <= i <= 6,
                v@ == u64_le_bytes(self.block_size) + u16_le_bytes(self.node_id)
                    + self._padding@.subrange(0, i as int),
            decreases 6 - i,
        {
            v.push(self._padding[i]);
            assert(self._padding@.subrange(0, i + 1) =~= self._padding@.subrange(0, i as int).push(
                self._padding@[i as int],
            ));
            i = i + 1;
        }
        assert(self._padding@.subrange(0, 6) =~= self._padding@);
        push_u64_le(&mut v, self.addr);
        push_u64_le(&mut v, self.region_size);
        push_u64_le(&mut v, self.usable_region_size);
        push_u64_le(&mut v, self.plugged_size);
        push_u64_le(&mut v, self.requested_size);
        v
    }

    /// The configuration space whose byte image is `bytes`.
    pub fn from_bytes(bytes: &[u8]) -> (cs: ConfigSpace)
        requires
            bytes@.len() == CONFIG_SPACE_SIZE,
        ensures
            config_bytes(cs) == bytes@,
    {
        let block_size = read_u64_le(bytes, 0);
        let node_id = read_u16_le(bytes, 8);
        let padding: [u8; 6] = [bytes[10], bytes[11], bytes[12], bytes[13], bytes[14], bytes[15]];
        let addr = read_u64_le(bytes, 16);
        let region_size = read_u64_le(bytes, 24);
        let usable_region_size = read_u64_le(bytes, 32);
        let plugged_size = read_u64_le(bytes, 40);
        let requested_size = read_u64_le(bytes, 48);
        let cs = ConfigSpace {
            block_size,
            node_id,
            _padding: padding,
            addr,
            region_size,
            usable_region_size,
            plugged_size,
            requested_size,
        };
        assert(padding@ =~= bytes@.subrange(10, 16));
        assert(config_bytes(cs) =~= bytes@);
        cs
    }

    /// Copies the bytes of the space from `offset` on into the front of `data`,
    /// as many as fit; leaves `data` alone when `offset` is past the space or
    /// `offset + data.len()` overflows.
    pub fn read(&self, offset: u64, data: &mut [u8])
        ensures
            final(data)@ == config_read_result(config_bytes(*self), offset, old(data)@),
    {
        let bytes = self.to_bytes();
        let config_len: u64 = bytes.len() as u64;
        if offset >= config_len {
            return;
        }
        let data_len: u64 = data.len() as u64;
        if offset > u64::MAX - data_len {
            return;
        }
        let end: u64 = if offset + data_len < config_len {
            offset + data_len
        } else {
            config_len
        };
        let n: usize = (end - offset) as usize;
        let start: usize = offset as usize;
        let mut i: usize = 0;
        while i < n
            invariant
                0 <= i <= n,
                n == end - offset,
                start == offset,
                start + n == end,
                bytes@.len() == CONFIG_SPACE_SIZE,
                end <= bytes@.len(),
                n <= data@.len(),
                data@.len() == old(data)@.len(),
                forall|j: int|
                    0 <= j < data@.len() ==> #[trigger] data@[j] == (if j < i {
                        bytes@[start + j]
                    } else {
                        old(data)@[j]
                    }),
            decreases n - i,
        {
            data[i] = bytes[start + i];
            i = i + 1;
        }
        assert(data@ =~= config_read_result(config_bytes(*self), offset, old(data)@));
    }

    /// Writes `data` into the space at `offset` when it fits, and leaves the
    /// space unchanged when it does not.
    pub fn write(&mut self, offset: u64, data: &[u8])
        requires
            offset + data@.len() <= u64::MAX,
        ensures
            config_write_fits(CONFIG_SPACE_SIZE as nat, offset, data@.len()) ==> config_bytes(*final(self))
                == config_write_result(config_bytes(*old(self)), offset, data@),
            !config_write_fits(CONFIG_SPACE_SIZE as nat, offset, data@.len()) ==> *final(self) == *old(
                self,
            ),
    {
        let data_len: u64 = data.len() as u64;
        let mut bytes = self.to_bytes();
        let config_len: u64 = bytes.len() as u64;
        if offset + data_len > config_len {
            return;
        }
        let start: usize = offset as usize;
        let n: usize = data.len();
        let mut i: usize = 0;
        while i < n
            invariant
                0 <= i <= n,
                n == data@.len(),
                start == offset,
                start + n <= bytes@.len(),
                bytes@.len() == CONFIG_SPACE_SIZE,
                forall|j: int|
                    0 <= j < bytes@.len() ==> #[trigger] bytes@[j] == (if start <= j < start + i {
                        data@[j - start]
                    } else {
                        config_bytes(*old(self))[j]
                    }),
            decreases n - i,
        {
            bytes.set(start + i, data[i]);
            i = i + 1;
        }
        assert(bytes@ =~= config_write_result(config_bytes(*old(self)), offset, data@));
        *self = ConfigSpace::from_bytes(bytes.as_slice());
    }
}

} // verus!
