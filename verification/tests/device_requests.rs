use virtio_mem::bitmap::MemBitmap;
use virtio_mem::device::{is_power_of_two, Memory, KIB, TYPE_MEMORY};
use virtio_mem::error::{ActivateError, MemoryDeviceError};
use virtio_mem::persist::{VirtioDeviceState, VirtioMemConfigSpaceState, VirtioMemState};
use virtio_mem::request::{
    check_request_len, VirtioMemReq, VirtioMemResp, VIRTIO_MEM_REQ_PLUG, VIRTIO_MEM_REQ_STATE,
    VIRTIO_MEM_REQ_UNPLUG, VIRTIO_MEM_REQ_UNPLUG_ALL, VIRTIO_MEM_RESP_ACK, VIRTIO_MEM_RESP_ERROR,
    VIRTIO_MEM_STATE_MIXED, VIRTIO_MEM_STATE_PLUGGED, VIRTIO_MEM_STATE_UNPLUGGED,
};

const BS: u64 = 4096;
const START: u64 = 0x1000_0000;
const HOST: u64 = 0x7000_0000;

fn state_with(blocks: Vec<bool>, plugged_size: u64) -> VirtioMemState {
    let n = blocks.len() as u64;
    VirtioMemState {
        virtio_state: VirtioDeviceState {
            device_type: TYPE_MEMORY,
            avail_features: 1u64 << 32,
            acked_features: 0,
            activated: true,
        },
        config_space: VirtioMemConfigSpaceState {
            block_size: BS,
            node_id: 0,
            addr: START,
            region_size: n * BS,
            usable_region_size: n * BS,
            plugged_size,
            requested_size: 0,
        },
        id: String::from("mem0"),
        memory_bitmap: MemBitmap { bitmap: blocks },
        host_addr: HOST,
    }
}

// A device over the given blocks whose whole region is usable.
fn device_with(blocks: Vec<bool>, plugged_size: u64) -> Memory {
    let n = blocks.len() as u64;
    let mut m = Memory::restore(&state_with(blocks, plugged_size), 4096).unwrap();
    m.write_config(32, &(n * BS).to_le_bytes());
    m
}

fn blocks(m: &Memory) -> Vec<bool> {
    m.memory_bitmap.bitmap.clone()
}

#[test]
fn plug_needs_a_plugged_block_in_range() {
    let mut m = device_with(vec![true, false, false, false], BS);
    assert_eq!(m.process_plug(START, 2), (VIRTIO_MEM_RESP_ACK, 0));
    assert_eq!(blocks(&m), vec![true, true, false, false]);
    assert_eq!(m.config_space.plugged_size, BS + 2 * BS);
    // every block of this range is unplugged: refused, nothing changes
    assert_eq!(m.process_plug(START + 2 * BS, 2), (VIRTIO_MEM_RESP_ERROR, 0));
    assert_eq!(blocks(&m), vec![true, true, false, false]);
    assert_eq!(m.config_space.plugged_size, 3 * BS);
}

#[test]
fn state_reports_plugged_unplugged_mixed() {
    let mut m = device_with(vec![true, true, false, false], 2 * BS);
    assert_eq!(m.process_state(START, 2), (VIRTIO_MEM_RESP_ACK, VIRTIO_MEM_STATE_PLUGGED));
    assert_eq!(m.process_state(START + 2 * BS, 2), (VIRTIO_MEM_RESP_ACK, VIRTIO_MEM_STATE_UNPLUGGED));
    assert_eq!(m.process_state(START + BS, 2), (VIRTIO_MEM_RESP_ACK, VIRTIO_MEM_STATE_MIXED));
    assert_eq!(m.process_state(START + 1, 1), (VIRTIO_MEM_RESP_ERROR, 0));
    assert_eq!(blocks(&m), vec![true, true, false, false]);
}

#[test]
fn plug_then_state_is_plugged() {
    let mut m = device_with(vec![false, true, false, false], BS);
    assert_eq!(m.process_plug(START, 3), (VIRTIO_MEM_RESP_ACK, 0));
    assert_eq!(m.process_state(START, 3), (VIRTIO_MEM_RESP_ACK, VIRTIO_MEM_STATE_PLUGGED));
}

#[test]
fn unplug_releases_then_clears() {
    let mut m = device_with(vec![true, true, false, false], 2 * BS);
    // every block plugged: refused
    assert_eq!(m.unplug_release_range(START, 2), None);
    assert_eq!(m.process_unplug(START, 2, 0), (VIRTIO_MEM_RESP_ERROR, 0));
    // a mixed range asks for its host memory to be released
    assert_eq!(m.unplug_release_range(START + BS, 2), Some((HOST + BS, 2 * BS)));
    // the release failed: refused, nothing changes
    assert_eq!(m.process_unplug(START + BS, 2, -1), (VIRTIO_MEM_RESP_ERROR, 0));
    assert_eq!(blocks(&m), vec![true, true, false, false]);
    assert_eq!(m.process_unplug(START + BS, 2, 0), (VIRTIO_MEM_RESP_ACK, 0));
    assert_eq!(blocks(&m), vec![true, false, false, false]);
    assert_eq!(m.config_space.plugged_size, 0);
    assert_eq!(m.process_state(START + BS, 2), (VIRTIO_MEM_RESP_ACK, VIRTIO_MEM_STATE_UNPLUGGED));
}

#[test]
fn invalid_ranges_are_refused() {
    let mut m = device_with(vec![true, false, false, false], BS);
    // misaligned
    assert_eq!(m.process_plug(START + 8, 1), (VIRTIO_MEM_RESP_ERROR, 0));
    // no blocks
    assert_eq!(m.process_plug(START, 0), (VIRTIO_MEM_RESP_ERROR, 0));
    // below the region
    assert_eq!(m.process_plug(START - BS, 2), (VIRTIO_MEM_RESP_ERROR, 0));
    // past the usable region
    assert_eq!(m.process_plug(START, 5), (VIRTIO_MEM_RESP_ERROR, 0));
    assert!(m.is_request_range_valid(START, 4 * BS));
    assert!(!m.is_request_range_valid(START + BS, 4 * BS));
    assert_eq!(blocks(&m), vec![true, false, false, false]);
    assert_eq!(m.config_space.plugged_size, BS);
}

#[test]
fn fresh_device_has_no_usable_region() {
    let mut m = Memory::new(BS, Some(3), 4 * BS, String::from("m"), 0, 4096).unwrap();
    m.set_addr(START).unwrap();
    assert_eq!(m.process_state(START, 1), (VIRTIO_MEM_RESP_ERROR, 0));
    assert_eq!(blocks(&m), vec![false; 4]);
    assert_eq!(m.node_id(), 3);
}

#[test]
fn unplug_all_clears_every_block() {
    let mut m = device_with(vec![true, false, true, true], 3 * BS);
    assert_eq!(m.unplug_all_release_range(), (HOST, 4 * BS));
    assert_eq!(m.process_unplug_all(-1), (VIRTIO_MEM_RESP_ERROR, 0));
    assert_eq!(blocks(&m), vec![true, false, true, true]);
    assert_eq!(m.process_unplug_all(0), (VIRTIO_MEM_RESP_ACK, 0));
    assert_eq!(blocks(&m), vec![false; 4]);
    assert_eq!(m.config_space.plugged_size, 0);
}

fn req(req_type: u16, addr: u64, nb_blocks: u16) -> VirtioMemReq {
    let mut bytes = Vec::new();
    bytes.extend_from_slice(&req_type.to_le_bytes());
    bytes.extend_from_slice(&[0u8; 6]);
    bytes.extend_from_slice(&addr.to_le_bytes());
    bytes.extend_from_slice(&nb_blocks.to_le_bytes());
    bytes.extend_from_slice(&[0u8; 6]);
    VirtioMemReq::from_bytes(&bytes)
}

#[test]
fn request_decoding() {
    let r = req(VIRTIO_MEM_REQ_UNPLUG, 0x1122_3344_5566_7788, 0x0102);
    assert_eq!(r.req_type, VIRTIO_MEM_REQ_UNPLUG);
    assert_eq!(r.data.addr, 0x1122_3344_5566_7788);
    assert_eq!(r.data.nb_blocks, 0x0102);
    let bytes: Vec<u8> = (0u8..24).collect();
    let r = VirtioMemReq::from_bytes(&bytes);
    assert_eq!(r.req_type, 0x0100);
    assert_eq!(r.padding, [0x0302, 0x0504, 0x0706]);
    assert_eq!(r.data.addr, 0x0f0e_0d0c_0b0a_0908);
    assert_eq!(r.data.nb_blocks, 0x1110);
    assert_eq!(r.data.padding, [0x1312, 0x1514, 0x1716]);
    assert_eq!(check_request_len(24), Ok(()));
    assert_eq!(check_request_len(23), Err(MemoryDeviceError::GuestMemory));
}

#[test]
fn response_encoding() {
    let resp = VirtioMemResp::new(VIRTIO_MEM_RESP_ERROR, 0x0201);
    assert_eq!(resp.padding, [0, 0, 0]);
    assert_eq!(resp.to_bytes(), vec![3, 0, 0, 0, 0, 0, 0, 0, 0x01, 0x02]);
}

#[test]
fn request_dispatch() {
    let mut m = device_with(vec![true, false, false, false], BS);
    let plug = req(VIRTIO_MEM_REQ_PLUG, START, 2);
    assert_eq!(m.release_for_request(&plug), None);
    assert!(m.request_in_bounds(&plug, 0));
    let resp = m.process_request(&plug, 0).unwrap();
    assert_eq!((resp.resp_type, resp.resp_state), (VIRTIO_MEM_RESP_ACK, 0));
    let state = req(VIRTIO_MEM_REQ_STATE, START, 2);
    let resp = m.process_request(&state, 0).unwrap();
    assert_eq!((resp.resp_type, resp.resp_state), (VIRTIO_MEM_RESP_ACK, VIRTIO_MEM_STATE_PLUGGED));
    let unplug = req(VIRTIO_MEM_REQ_UNPLUG, START + BS, 2);
    assert_eq!(m.release_for_request(&unplug), Some((HOST + BS, 2 * BS)));
    let resp = m.process_request(&unplug, 0).unwrap();
    assert_eq!((resp.resp_type, resp.resp_state), (VIRTIO_MEM_RESP_ACK, 0));
    let all = req(VIRTIO_MEM_REQ_UNPLUG_ALL, 0, 0);
    assert_eq!(m.release_for_request(&all), Some((HOST, 4 * BS)));
    let resp = m.process_request(&all, 0).unwrap();
    assert_eq!((resp.resp_type, resp.resp_state), (VIRTIO_MEM_RESP_ACK, 0));
    assert_eq!(blocks(&m), vec![false; 4]);
    let unknown = req(9, START, 1);
    assert_eq!(m.process_request(&unknown, 0).unwrap_err(), MemoryDeviceError::UnknownRequestType(9));
}

#[test]
fn request_bounds_checks() {
    let m = device_with(vec![true, false, false, false], BS);
    // nb_blocks * block_size overflows
    let mut huge = Memory::restore(&state_with(vec![true, false], 0), 4096).unwrap();
    huge.write_config(0, &(1u64 << 62).to_le_bytes());
    assert!(!huge.request_in_bounds(&req(VIRTIO_MEM_REQ_PLUG, START, 8), 0));
    assert!(huge.request_in_bounds(&req(9, START, 8), 0));
    // unplugging more than is counted as plugged
    assert!(!m.request_in_bounds(&req(VIRTIO_MEM_REQ_UNPLUG, START, 3), 0));
    assert!(m.request_in_bounds(&req(VIRTIO_MEM_REQ_UNPLUG, START, 3), -1));
    assert!(m.release_in_bounds(&req(VIRTIO_MEM_REQ_UNPLUG, START, 3)));
}

#[test]
fn addresses_are_set_once() {
    let mut m = Memory::new(BS, None, 4 * BS, String::from("m"), 0, 4096).unwrap();
    assert!(!m.addr_is_set());
    assert_eq!(m.set_addr(START), Ok(()));
    assert_eq!(m.set_addr(START + BS), Err(MemoryDeviceError::AddressAlreadySet));
    assert_eq!(m.config_space.addr, START);
    assert!(!m.host_addr_is_set());
    assert_eq!(m.set_host_addr(HOST), Ok(()));
    assert_eq!(m.set_host_addr(0), Err(MemoryDeviceError::HostAddressAlreadySet));
    assert_eq!(m.host_addr, HOST);
}

#[test]
fn requested_size_change() {
    let mut m = Memory::new(2 * KIB * 1024, None, 16 * KIB * 1024, String::from("m"), 0, 4096).unwrap();
    assert_eq!(m.change_requested_size(2048), Err(MemoryDeviceError::DeviceNotActive));
    assert_eq!(m.activate(false), Err(ActivateError::EventFd));
    assert!(!m.is_activated());
    assert_eq!(m.activate(true), Ok(()));
    assert!(m.is_activated());
    // the usable region of a fresh device is empty
    assert_eq!(m.change_requested_size(2048), Err(MemoryDeviceError::RequestedSizeTooLarge));
    m.write_config(32, &(16 * KIB * 1024).to_le_bytes());
    assert_eq!(m.change_requested_size(1024), Err(MemoryDeviceError::SizeNotMultipleOfBlockSize));
    assert_eq!(m.change_requested_size(32 * 1024), Err(MemoryDeviceError::RequestedSizeTooLarge));
    assert_eq!(m.change_requested_size(4096), Ok(()));
    assert_eq!(m.requested_size(), 4096 * KIB);
    let cfg = m.config();
    assert_eq!(cfg.id, "m");
    assert_eq!(cfg.block_size_kib, 2048);
    assert_eq!(cfg.node_id, Some(0));
    assert_eq!(cfg.region_size_kib, 16 * 1024);
    assert_eq!(cfg.requested_size_kib, 4096);
}

#[test]
fn save_then_restore() {
    let mut m = device_with(vec![true, false, true, false], 2 * BS);
    m.set_acked_features(5);
    let saved = m.save();
    assert_eq!(saved.virtio_state.acked_features, 5);
    assert_eq!(saved.config_space.usable_region_size, 4 * BS);
    let r = Memory::restore(&saved, 4096).unwrap();
    assert_eq!(r.acked_features(), 5);
    assert_eq!(r.avail_features(), m.avail_features());
    assert!(r.is_activated());
    assert_eq!(r.id(), "mem0");
    assert_eq!(blocks(&r), vec![true, false, true, false]);
    assert_eq!(r.config_space.addr, START);
    assert_eq!(r.config_space.plugged_size, 2 * BS);
    assert_eq!(r.config_space.usable_region_size, 0);
    assert!(r.addr_is_set() && r.host_addr_is_set());
    assert_eq!(r.host_addr, HOST);
    // a kept block size the host pages do not divide fails as a fresh device would
    assert_eq!(Memory::restore(&saved, 8192).unwrap_err(), MemoryDeviceError::BlockSizeNotMultipleOfPageSize(8192));
}

#[test]
fn config_partial_reads() {
    let m = Memory::new(BS, Some(0x0201), 8 * BS, String::from("m"), 2 * BS, 4096).unwrap();
    let mut past = [7u8; 4];
    m.read_config(56, &mut past);
    assert_eq!(past, [7u8; 4]);
    let mut tail = [7u8; 10];
    m.read_config(48, &mut tail);
    assert_eq!(tail, [0, 0x20, 0, 0, 0, 0, 0, 0, 7, 7]);
    let mut node = [0u8; 2];
    m.read_config(8, &mut node);
    assert_eq!(node, [0x01, 0x02]);
    let mut overflow = [7u8; 4];
    m.read_config(u64::MAX - 1, &mut overflow);
    assert_eq!(overflow, [7u8; 4]);
}

#[test]
fn config_write_round_trip() {
    let mut m = Memory::new(BS, None, 8 * BS, String::from("m"), 0, 4096).unwrap();
    m.write_config(40, &[1, 2, 3, 4, 5, 6, 7, 8]);
    assert_eq!(m.config_space.plugged_size, 0x0807_0605_0403_0201);
    let mut back = [0u8; 8];
    m.read_config(40, &mut back);
    assert_eq!(back, [1, 2, 3, 4, 5, 6, 7, 8]);
    // a write running past the end changes nothing
    m.write_config(50, &[9u8; 8]);
    assert_eq!(m.config_space.requested_size, 0);
}

#[test]
fn bitmap_ranges() {
    let mut b = MemBitmap::new(6 * BS, BS);
    assert_eq!(b.len(), 6);
    assert!(b.is_range_state(0, 6, false));
    b.set_range_state(4, 5, true);
    assert_eq!(b.bitmap, vec![false, false, false, false, true, true]);
    assert!(b.is_range_state(4, 100, true));
    assert!(!b.is_range_state(3, 2, true));
    // a range starting past the end is vacuously in any state
    assert!(b.is_range_state(10, 1, true) && b.is_range_state(10, 1, false));
    b.set_range_state(10, 3, false);
    assert_eq!(b.bitmap, vec![false, false, false, false, true, true]);
}

#[test]
fn power_of_two() {
    assert!(!is_power_of_two(0));
    assert!(is_power_of_two(1));
    assert!(is_power_of_two(4096));
    assert!(!is_power_of_two(12288));
    assert!(is_power_of_two(1u64 << 63));
}
