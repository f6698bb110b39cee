use cufile::status::{
    CU_FILE_INVALID_FILE_OPEN_FLAG, CU_FILE_IO_NOT_SUPPORTED, CU_FILE_PERMISSION_DENIED,
};
use cufile::{io_result, raw_io_result, CuFileError};

#[test]
fn transferred_bytes_are_returned() {
    assert_eq!(raw_io_result(4096, 0), Ok(4096));
    assert_eq!(raw_io_result(0, 0), Ok(0));
    assert_eq!(io_result(4096, 0), Ok(4096usize));
    // errno is consulted only for a return of -1
    assert_eq!(io_result(10, 5025), Ok(10usize));
}

#[test]
fn filesystem_errors_come_from_errno() {
    assert_eq!(
        raw_io_result(-1, CU_FILE_INVALID_FILE_OPEN_FLAG),
        Err(CuFileError::InvalidFileOpenFlag)
    );
    assert_eq!(
        io_result(-1, CU_FILE_PERMISSION_DENIED),
        Err(CuFileError::PermissionDenied)
    );
    // an errno that is no cuFile code is kept as it is
    assert_eq!(io_result(-1, 13), Err(CuFileError::Unknown(13)));
}

#[test]
fn failure_without_errno_is_an_io_error() {
    assert_eq!(raw_io_result(-1, 0), Err(CuFileError::IoError));
    assert_eq!(io_result(-1, 0), Err(CuFileError::IoError));
}

#[test]
fn operation_errors_are_negated_codes() {
    // a read on a write-only file reports the invalid open flags
    assert_eq!(
        io_result(-(CU_FILE_INVALID_FILE_OPEN_FLAG as isize), 0),
        Err(CuFileError::InvalidFileOpenFlag)
    );
    assert_eq!(
        raw_io_result(-(CU_FILE_IO_NOT_SUPPORTED as isize), 0),
        Err(CuFileError::IoNotSupported)
    );
    assert_eq!(raw_io_result(-2, 0), Err(CuFileError::Unknown(2)));
    assert_eq!(
        raw_io_result(-(i32::MAX as isize), 0),
        Err(CuFileError::Unknown(i32::MAX))
    );
    assert_eq!(raw_io_result(isize::MIN, 0), Err(CuFileError::IoError));
}
