use vstd::prelude::*;
use crate::error::MemoryDeviceError;
use crate::le::{push_u16_le, read_u16_le, read_u64_le, u16_le_bytes, u64_le_bytes};

verus! {

/// Guest request: plug a range of blocks.
pub const VIRTIO_MEM_REQ_PLUG: u16 = 0;
/// Guest request: unplug a range of blocks.
pub const VIRTIO_MEM_REQ_UNPLUG: u16 = 1;
/// Guest request: unplug every block of the region.
pub const VIRTIO_MEM_REQ_UNPLUG_ALL: u16 = 2;
/// Guest request: report the plug state of a range of blocks.
pub const VIRTIO_MEM_REQ_STATE: u16 = 3;

/// Response: the request was carried out.
pub const VIRTIO_MEM_RESP_ACK: u16 = 0;
/// Response: the request was refused.
pub const VIRTIO_MEM_RESP_NACK: u16 = 1;
/// Response: the device is busy.
pub const VIRTIO_MEM_RESP_BUSY: u16 = 2;
/// Response: the request was invalid or failed.
pub const VIRTIO_MEM_RESP_ERROR: u16 = 3;

/// Range state: every block of the range is plugged.
pub const VIRTIO_MEM_STATE_PLUGGED: u16 = 0;
/// Range state: every block of the range is unplugged.
pub const VIRTIO_MEM_STATE_UNPLUGGED: u16 = 1;
/// Range state: the range holds plugged and unplugged blocks.
pub const VIRTIO_MEM_STATE_MIXED: u16 = 2;

/// Size in bytes of a guest request in guest memory.
pub const VIRTIO_MEM_REQ_SIZE: usize = 24;
/// Size in bytes of a device response in guest memory.
pub const VIRTIO_MEM_RESP_SIZE: usize = 10;

/// The range a request applies to.
#[derive(Clone, Copy, Debug, Default)]
pub struct VirtioMemReqData {
    pub addr: u64,
    pub nb_blocks: u16,
    pub padding: [u16; 3],
}

/// A guest request, as laid out in guest memory.
#[derive(Clone, Copy, Debug, Default)]
pub struct VirtioMemReq {
    pub req_type: u16,
    pub padding: [u16; 3],
    pub data: VirtioMemReqData,
}

/// A device response, as laid out in guest memory.
#[derive(Clone, Copy, Debug, Default)]
pub struct VirtioMemResp {
    pub resp_type: u16,
    pub padding: [u16; 3],
    pub resp_state: u16,
}

/// The byte image of a request: `req_type`, its padding, then the range
/// (`addr`, `nb_blocks`, padding), each field little-endian.
pub open spec fn req_bytes(r: VirtioMemReq) -> Seq<u8> {
    u16_le_bytes(r.req_type) + u16_le_bytes(r.padding[0]) + u16_le_bytes(r.padding[1])
        + u16_le_bytes(r.padding[2]) + u64_le_bytes(r.data.addr) + u16_le_bytes(r.data.nb_blocks)
        + u16_le_bytes(r.data.padding[0]) + u16_le_bytes(r.data.padding[1]) + u16_le_bytes(
        r.data.padding[2],
    )
}

/// The byte image of a response: `resp_type`, its padding, `resp_state`,
/// each little-endian.
pub open spec fn resp_bytes(r: VirtioMemResp) -> Seq<u8> {
    u16_le_bytes(r.resp_type) + u16_le_bytes(r.padding[0]) + u16_le_bytes(r.padding[1])
        + u16_le_bytes(r.padding[2]) + u16_le_bytes(r.resp_state)
}

/// Checks that a descriptor of `desc_len` bytes can hold a request: fails
/// with `GuestMemory` when it is shorter than a request.
pub fn check_request_len(desc_len: u32) -> (res: Result<(), MemoryDeviceError>)
    ensures
        res == (if desc_len >= VIRTIO_MEM_REQ_SIZE {
            Ok::<(), MemoryDeviceError>(())
        } else {
            Err(MemoryDeviceError::GuestMemory)
        }),
{
    if desc_len as usize >= VIRTIO_MEM_REQ_SIZE {
        Ok(())
    } else {
        Err(MemoryDeviceError::GuestMemory)
    }
}

impl VirtioMemReq {
    /// The request whose byte image is `bytes`.
    pub fn from_bytes(bytes: &[u8]) -> (req: VirtioMemReq)
        requires
            bytes@.len() == VIRTIO_MEM_REQ_SIZE,
        ensures
            req_bytes(req) == bytes@,
    {
        let req_type = read_u16_le(bytes, 0);
        let p0 = read_u16_le(bytes, 2);
        let p1 = read_u16_le(bytes, 4);
        let p2 = read_u16_le(bytes, 6);
        let addr = read_u64_le(bytes, 8);
        let nb_blocks = read_u16_le(bytes, 16);
        let q0 = read_u16_le(bytes, 18);
        let q1 = read_u16_le(bytes, 20);
        let q2 = read_u16_le(bytes, 22);
        let req = VirtioMemReq {
            req_type,
            padding: [p0, p1, p2],
            data: VirtioMemReqData { addr, nb_blocks, padding: [q0, q1, q2] },
        };
        assert(req_bytes(req) =~= bytes@);
        req
    }
}

impl VirtioMemResp {
    /// A response of type `resp_type` carrying `resp_state`, padding zeroed.
    pub fn new(resp_type: u16, resp_state: u16) -> (resp: Self)
        ensures
            resp.resp_type == resp_type,
            resp.resp_state == resp_state,
            resp.padding@ == seq![0u16, 0u16, 0u16],
    {
        let resp = Self { resp_type, padding: [0u16, 0u16, 0u16], resp_state };
        assert(resp.padding@ =~= seq![0u16, 0u16, 0u16]);
        resp
    }

    /// The byte image of the response.
    pub fn to_bytes(&self) -> (bytes: Vec<u8>)
        ensures
            bytes@ == resp_bytes(*self),
            bytes@.len() == VIRTIO_MEM_RESP_SIZE,
    {
        let mut v: Vec<u8> = Vec::new();
        push_u16_le(&mut v, self.resp_type);
        push_u16_le(&mut v, self.padding[0]);
        push_u16_le(&mut v, self.padding[1]);
        push_u16_le(&mut v, self.padding[2]);
        push_u16_le(&mut v, self.resp_state);
        v
    }
}

} // verus!
