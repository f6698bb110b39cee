use cufile::status::{CU_FILE_INVALID_VALUE, CU_FILE_MEMORY_ALREADY_REGISTERED, CU_FILE_SUCCESS};
use cufile::{BufferFlags, CuFileError, RegisteredBuffer};

#[test]
fn test_buffer_size_calculations() {
    // Test size calculations without actually registering buffers
    let size_bytes = 1024;
    let count_u32 = 256; // 256 * 4 = 1024 bytes

    assert_eq!(count_u32 * std::mem::size_of::<u32>(), size_bytes);
    assert_eq!(RegisteredBuffer::<u32>::typed_size(count_u32), size_bytes);

    // Test with different types
    let count_f64 = 128; // 128 * 8 = 1024 bytes
    assert_eq!(count_f64 * std::mem::size_of::<f64>(), size_bytes);
    assert_eq!(RegisteredBuffer::<f64>::typed_size(count_f64), size_bytes);
}

#[test]
fn test_buffer_flags() {
    assert_eq!(BufferFlags::NONE, 0);
}

#[test]
fn register_records_address_and_size() {
    let buf = RegisteredBuffer::<u32>::register(0x7000_0000, 4096, CU_FILE_SUCCESS).unwrap();
    assert_eq!(buf.address(), 0x7000_0000);
    assert_eq!(buf.size(), 4096);
    assert_eq!(buf.len(), 1024);
    assert!(!buf.is_empty());
}

#[test]
fn register_reports_the_registration_error() {
    match RegisteredBuffer::<u32>::register(0x1000, 16, CU_FILE_MEMORY_ALREADY_REGISTERED) {
        Ok(_) => panic!("a failed registration gave a buffer"),
        Err(e) => assert_eq!(e, CuFileError::MemoryAlreadyRegistered),
    }
    match RegisteredBuffer::<u8>::register_bytes(0x1000, 16, 77) {
        Ok(_) => panic!("a failed registration gave a buffer"),
        Err(e) => assert_eq!(e, CuFileError::Unknown(77)),
    }
}

#[test]
fn empty_buffer_is_empty() {
    let buf = RegisteredBuffer::<u8>::register_bytes(0x2000, 0, CU_FILE_SUCCESS).unwrap();
    assert!(buf.is_empty());
    assert_eq!(buf.len(), 0);
}

#[test]
fn len_rounds_down_to_whole_elements() {
    let buf = RegisteredBuffer::<u64>::register(0x3000, 20, CU_FILE_SUCCESS).unwrap();
    assert_eq!(buf.len(), 2);
}

#[test]
fn typed_buffer_holds_its_count() {
    let buf = RegisteredBuffer::<u32>::register_typed(0x4000, 300, CU_FILE_SUCCESS).unwrap();
    assert_eq!(buf.size(), 1200);
    assert_eq!(buf.len(), 300);
    assert_eq!(buf.address(), 0x4000);
    match RegisteredBuffer::<u16>::register_typed(0x4000, 3, CU_FILE_INVALID_VALUE) {
        Ok(_) => panic!("a failed registration gave a buffer"),
        Err(e) => assert_eq!(e, CuFileError::InvalidValue),
    }
}
