use cufile::{decimal_string, get_error_string, CuFileError};

#[test]
fn decimal_rendering_matches_format() {
    for x in [0, 1, 9, 10, 42, 500, 5038, -1, -10, -5001, i32::MAX, i32::MIN] {
        assert_eq!(decimal_string(x), format!("{}", x));
    }
}

#[test]
fn error_string_prefers_the_library_description() {
    assert_eq!(
        get_error_string(5022, Some("invalid arguments".to_string())),
        "invalid arguments"
    );
    assert_eq!(get_error_string(5022, None), "Unknown error: 5022");
    assert_eq!(get_error_string(-3, None), "Unknown error: -3");
}

#[test]
fn error_messages() {
    assert_eq!(CuFileError::Success.message(), "Success");
    assert_eq!(CuFileError::IoError.message(), "I/O error occurred");
    assert_eq!(CuFileError::Unknown(42).message(), "Unknown error: 42");
    assert_eq!(
        CuFileError::DriverNotInitialized.message(),
        "The nvidia-fs driver is not loaded"
    );
    assert_eq!(
        CuFileError::InternalError.message(),
        "Internal error occurred. Refer to cufile.log for more details"
    );
    assert_eq!(
        CuFileError::AsyncNotSupported.message(),
        "cuFile stream operation is not supported"
    );
}
