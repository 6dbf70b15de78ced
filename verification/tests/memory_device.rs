use virtio_mem::config_space::{ConfigSpace, CONFIG_SPACE_SIZE};
use virtio_mem::device::{Memory, TYPE_MEMORY, VIRTIO_F_VERSION_1};
use virtio_mem::error::MemoryDeviceError;

// Page size of the hosts the device is tested for.
fn page_size() -> u64 {
    4096
}

// Reads a little-endian u64 from the front of `input`; missing bytes read as zero.
fn read_le_u64(input: &[u8]) -> u64 {
    let mut array = [0u8; 8];
    for (byte, read) in array.iter_mut().zip(input.iter().cloned()) {
        *byte = read;
    }
    u64::from_le_bytes(array)
}

// Reads a little-endian u16 from the front of `input`; missing bytes read as zero.
fn read_le_u16(input: &[u8]) -> u16 {
    let mut array = [0u8; 2];
    for (byte, read) in array.iter_mut().zip(input.iter().cloned()) {
        *byte = read;
    }
    u16::from_le_bytes(array)
}

#[test]
fn test_new_memory() {
    let page_size: u64 = page_size();
    let block_size_zero = Memory::new(0, None, 0, String::from("memory-dev-1"), 0, page_size);
    match block_size_zero {
        Err(MemoryDeviceError::BlockSizeIsZero) => {}
        _ => unreachable!(),
    }
    let block_size_allignment =
        Memory::new(page_size + 1, None, 0, String::from("memory-dev-2"), 0, page_size);
    match block_size_allignment {
        Err(MemoryDeviceError::BlockSizeNotMultipleOfPageSize(_)) => {}
        _ => unreachable!(),
    }
    let block_size_power2 =
        Memory::new(page_size * 3, None, 0, String::from("memory-dev-3"), 0, page_size);
    match block_size_power2 {
        Err(MemoryDeviceError::BlockSizeNotPowerOf2) => {}
        _ => unreachable!(),
    }
    let region_size_multiple =
        Memory::new(page_size, None, page_size + 1, String::from("memory-dev-4"), 0, page_size);
    match region_size_multiple {
        Err(MemoryDeviceError::SizeNotMultipleOfBlockSize) => {}
        _ => unreachable!(),
    }
    let memory_ok =
        Memory::new(page_size, None, page_size, String::from("memory-dev-5"), 0, page_size).unwrap();
    assert_eq!(memory_ok.device_type(), TYPE_MEMORY);
    assert_eq!(memory_ok.id(), "memory-dev-5");
    assert!(!memory_ok.addr_is_set());
    assert_eq!(memory_ok.acked_features(), 0);
    assert_eq!(memory_ok.avail_features(), 1u64 << VIRTIO_F_VERSION_1);
    assert_eq!(memory_ok.block_size(), page_size);
    assert_eq!(memory_ok.region_size(), page_size);
}

#[test]
fn test_read_config() {
    let page_size: u64 = page_size();
    let memory_device =
        Memory::new(page_size, None, page_size, String::from("memory-dev"), 0, page_size).unwrap();
    // 7 fields of 8 Bytes each
    let mut actual_config_space = [0u8; CONFIG_SPACE_SIZE];
    memory_device.read_config(0, &mut actual_config_space);
    // pub block_size: u64,
    assert_eq!(read_le_u64(&actual_config_space[..8]), page_size);
    // pub node_id: u16,
    assert_eq!(read_le_u16(&actual_config_space[8..10]), 0u16);
    // _padding: [u8; 6],
    assert_eq!(&actual_config_space[10..16], [0u8; 6]);
    // pub addr: u64,
    assert_eq!(read_le_u64(&actual_config_space[16..24]), 0u64);
    // pub region_size: u64,
    assert_eq!(read_le_u64(&actual_config_space[24..32]), page_size);
    // pub usable_region_size: u64,
    assert_eq!(read_le_u64(&actual_config_space[32..40]), 0u64);
    // pub plugged_size: u64,
    assert_eq!(read_le_u64(&actual_config_space[40..41]), 0u64);
    // pub requested_size: u64,
    assert_eq!(read_le_u64(&actual_config_space[48..CONFIG_SPACE_SIZE]), 0u64);
}

#[test]
fn test_write_config() {
    let page_size: u64 = page_size();
    let mut memory_device =
        Memory::new(page_size, None, page_size, String::from("memory-dev"), 0, page_size).unwrap();
    let mut expected_config_space: [u8; CONFIG_SPACE_SIZE] = [0u8; CONFIG_SPACE_SIZE];
    // reading the expected config is assured by `test_read_config()`
    memory_device.read_config(0, &mut expected_config_space);
    // this write should fail to write
    let garbage_config_space = [0xffu8; CONFIG_SPACE_SIZE];
    memory_device.write_config(3, &garbage_config_space);
    // reading again
    let mut actual_config_space = [0xffu8; CONFIG_SPACE_SIZE];
    memory_device.read_config(0, &mut actual_config_space);
    // this write should go through setting every bit
    memory_device.write_config(0, &garbage_config_space);
    memory_device.read_config(0, &mut actual_config_space);
    assert_eq!(garbage_config_space, actual_config_space);
    // now construction of a valid config space
    let config_space = ConfigSpace {
        block_size: page_size * 2,
        node_id: 0,
        _padding: [0u8; 6],
        addr: 0,
        region_size: page_size * 8,
        usable_region_size: 0,
        plugged_size: 0,
        requested_size: 0,
    };
    // Writing should go through
    let new_config_space = config_space.to_bytes();
    memory_device.write_config(0, &new_config_space);
    assert_eq!(memory_device.block_size(), page_size * 2);
    assert_eq!(memory_device.region_size(), page_size * 8);
}
