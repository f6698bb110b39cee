//! The error type of the library and its correspondence with cuFile status codes.
use vstd::prelude::*;
use crate::status;

verus! {

/// CuFile error types
#[derive(Debug, Clone, PartialEq, Eq, Structural)]
pub enum CuFileError {
    /// Success
    Success,
    /// Invalid value provided
    InvalidValue,
    /// I/O error occurred
    IoError,
    /// Permission denied
    PermissionDenied,
    /// A status code that names none of the other variants
    Unknown(i32),
    /// Handle already registered
    HandleAlreadyRegistered,
    /// FS or device I/O not supported
    IoNotSupported,
    /// Invalid file type
    InvalidFile,
    /// The nvidia-fs driver is not loaded
    DriverNotInitialized,
    /// Invalid property
    DriverInvalidProps,
    /// Property range error
    DriverUnsupportedLimit,
    /// nvidia-fs driver version mismatch
    DriverVersionMismatch,
    /// nvidia-fs driver version read error
    DriverVersionReadError,
    /// Driver shutdown in progress
    DriverClosing,
    /// GDS is not supported on the current platform
    PlatformNotSupported,
    /// GDS is not supported on the current GPU
    DeviceNotSupported,
    /// nvidia-fs driver ioctl error
    NvfsDriverError,
    /// CUDA Driver API error
    CudaDriverError,
    /// Invalid device pointer
    CudaPointerInvalid,
    /// Invalid pointer memory type
    CudaMemoryTypeInvalid,
    /// Pointer range exceeds the allocated address range
    CudaPointerRangeError,
    /// CUDA context mismatch
    CudaContextMismatch,
    /// Access beyond the maximum pinned memory size
    InvalidMappingSize,
    /// Access beyond the mapped size
    InvalidMappingRange,
    /// Unsupported file open flags
    InvalidFileOpenFlag,
    /// The fd direct IO is not set
    DioNotSet,
    /// Device pointer is already registered
    MemoryAlreadyRegistered,
    /// Device pointer lookup failure
    MemoryNotRegistered,
    /// The driver is already open
    DriverAlreadyOpen,
    /// The file descriptor is not registered
    HandleNotRegistered,
    /// The GPU device cannot be found
    DeviceNotFound,
    /// Internal error occurred. Refer to cufile.log for more details
    InternalError,
    /// Failed to obtain a new file descriptor
    GetNewFdFailed,
    /// NVFS driver initialization error
    NvfsSetupError,
    /// GDS is disabled by config on the current file
    IoDisabled,
    /// Failed to submit a batch operation
    BatchSubmitFailed,
    /// Failed to allocate pinned GPU memory
    GpuMemoryPinningFailed,
    /// Queue full for batch operation
    BatchFull,
    /// cuFile stream operation is not supported
    AsyncNotSupported,
}

/// Result type for CuFile operations
pub type CuFileResult<T> = Result<T, CuFileError>;

/// The error that a cuFile status code stands for: each code of the cuFile API
/// names one variant, and any other code is kept in `Unknown`.
pub open spec fn error_for_code(code: i32) -> CuFileError {
    if code == status::CU_FILE_SUCCESS {
        CuFileError::Success
    } else if code == status::CU_FILE_INVALID_VALUE {
        CuFileError::InvalidValue
    } else if code == status::CU_FILE_PERMISSION_DENIED {
        CuFileError::PermissionDenied
    } else if code == status::CU_FILE_HANDLE_ALREADY_REGISTERED {
        CuFileError::HandleAlreadyRegistered
    } else if code == status::CU_FILE_IO_NOT_SUPPORTED {
        CuFileError::IoNotSupported
    } else if code == status::CU_FILE_INVALID_FILE_TYPE {
        CuFileError::InvalidFile
    } else if code == status::CU_FILE_DRIVER_NOT_INITIALIZED {
        CuFileError::DriverNotInitialized
    } else if code == status::CU_FILE_DRIVER_INVALID_PROPS {
        CuFileError::DriverInvalidProps
    } else if code == status::CU_FILE_DRIVER_UNSUPPORTED_LIMIT {
        CuFileError::DriverUnsupportedLimit
    } else if code == status::CU_FILE_DRIVER_VERSION_MISMATCH {
        CuFileError::DriverVersionMismatch
    } else if code == status::CU_FILE_DRIVER_VERSION_READ_ERROR {
        CuFileError::DriverVersionReadError
    } else if code == status::CU_FILE_DRIVER_CLOSING {
        CuFileError::DriverClosing
    } else if code == status::CU_FILE_PLATFORM_NOT_SUPPORTED {
        CuFileError::PlatformNotSupported
    } else if code == status::CU_FILE_DEVICE_NOT_SUPPORTED {
        CuFileError::DeviceNotSupported
    } else if code == status::CU_FILE_NVFS_DRIVER_ERROR {
        CuFileError::NvfsDriverError
    } else if code == status::CU_FILE_CUDA_DRIVER_ERROR {
        CuFileError::CudaDriverError
    } else if code == status::CU_FILE_CUDA_POINTER_INVALID {
        CuFileError::CudaPointerInvalid
    } else if code == status::CU_FILE_CUDA_MEMORY_TYPE_INVALID {
        CuFileError::CudaMemoryTypeInvalid
    } else if code == status::CU_FILE_CUDA_POINTER_RANGE_ERROR {
        CuFileError::CudaPointerRangeError
    } else if code == status::CU_FILE_CUDA_CONTEXT_MISMATCH {
        CuFileError::CudaContextMismatch
    } else if code == status::CU_FILE_INVALID_MAPPING_SIZE {
        CuFileError::InvalidMappingSize
    } else if code == status::CU_FILE_INVALID_MAPPING_RANGE {
        CuFileError::InvalidMappingRange
    } else if code == status::CU_FILE_INVALID_FILE_OPEN_FLAG {
        CuFileError::InvalidFileOpenFlag
    } else if code == status::CU_FILE_DIO_NOT_SET {
        CuFileError::DioNotSet
    } else if code == status::CU_FILE_MEMORY_ALREADY_REGISTERED {
        CuFileError::MemoryAlreadyRegistered
    } else if code == status::CU_FILE_MEMORY_NOT_REGISTERED {
        CuFileError::MemoryNotRegistered
    } else if code == status::CU_FILE_DRIVER_ALREADY_OPEN {
        CuFileError::DriverAlreadyOpen
    } else if code == status::CU_FILE_HANDLE_NOT_REGISTERED {
        CuFileError::HandleNotRegistered
    } else if code == status::CU_FILE_DEVICE_NOT_FOUND {
        CuFileError::DeviceNotFound
    } else if code == status::CU_FILE_INTERNAL_ERROR {
        CuFileError::InternalError
    } else if code == status::CU_FILE_GETNEWFD_FAILED {
        CuFileError::GetNewFdFailed
    } else if code == status::CU_FILE_NVFS_SETUP_ERROR {
        CuFileError::NvfsSetupError
    } else if code == status::CU_FILE_IO_DISABLED {
        CuFileError::IoDisabled
    } else if code == status::CU_FILE_BATCH_SUBMIT_FAILED {
        CuFileError::BatchSubmitFailed
    } else if code == status::CU_FILE_GPU_MEMORY_PINNING_FAILED {
        CuFileError::GpuMemoryPinningFailed
    } else if code == status::CU_FILE_BATCH_FULL {
        CuFileError::BatchFull
    } else if code == status::CU_FILE_ASYNC_NOT_SUPPORTED {
        CuFileError::AsyncNotSupported
    } else {
        CuFileError::Unknown(code)
    }
}

/// Whether `code` is one of the status codes of the cuFile API that this library knows.
pub open spec fn is_known_code(code: i32) -> bool {
    code == status::CU_FILE_SUCCESS
    || code == status::CU_FILE_INVALID_VALUE
    || code == status::CU_FILE_PERMISSION_DENIED
    || code == status::CU_FILE_HANDLE_ALREADY_REGISTERED
    || code == status::CU_FILE_IO_NOT_SUPPORTED
    || code == status::CU_FILE_INVALID_FILE_TYPE
    || code == status::CU_FILE_DRIVER_NOT_INITIALIZED
    || code == status::CU_FILE_DRIVER_INVALID_PROPS
    || code == status::CU_FILE_DRIVER_UNSUPPORTED_LIMIT
    || code == status::CU_FILE_DRIVER_VERSION_MISMATCH
    || code == status::CU_FILE_DRIVER_VERSION_READ_ERROR
    || code == status::CU_FILE_DRIVER_CLOSING
    || code == status::CU_FILE_PLATFORM_NOT_SUPPORTED
    || code == status::CU_FILE_DEVICE_NOT_SUPPORTED
    || code == status::CU_FILE_NVFS_DRIVER_ERROR
    || code == status::CU_FILE_CUDA_DRIVER_ERROR
    || code == status::CU_FILE_CUDA_POINTER_INVALID
    || code == status::CU_FILE_CUDA_MEMORY_TYPE_INVALID
    || code == status::CU_FILE_CUDA_POINTER_RANGE_ERROR
    || code == status::CU_FILE_CUDA_CONTEXT_MISMATCH
    || code == status::CU_FILE_INVALID_MAPPING_SIZE
    || code == status::CU_FILE_INVALID_MAPPING_RANGE
    || code == status::CU_FILE_INVALID_FILE_OPEN_FLAG
    || code == status::CU_FILE_DIO_NOT_SET
    || code == status::CU_FILE_MEMORY_ALREADY_REGISTERED
    || code == status::CU_FILE_MEMORY_NOT_REGISTERED
    || code == status::CU_FILE_DRIVER_ALREADY_OPEN
    || code == status::CU_FILE_HANDLE_NOT_REGISTERED
    || code == status::CU_FILE_DEVICE_NOT_FOUND
    || code == status::CU_FILE_INTERNAL_ERROR
    || code == status::CU_FILE_GETNEWFD_FAILED
    || code == status::CU_FILE_NVFS_SETUP_ERROR
    || code == status::CU_FILE_IO_DISABLED
    || code == status::CU_FILE_BATCH_SUBMIT_FAILED
    || code == status::CU_FILE_GPU_MEMORY_PINNING_FAILED
    || code == status::CU_FILE_BATCH_FULL
    || code == status::CU_FILE_ASYNC_NOT_SUPPORTED
}

impl From<i32> for CuFileError {
    fn from(code: i32) -> (err: Self) {
        match code {
            status::CU_FILE_SUCCESS => CuFileError::Success,
            status::CU_FILE_INVALID_VALUE => CuFileError::InvalidValue,
            status::CU_FILE_PERMISSION_DENIED => CuFileError::PermissionDenied,
            status::CU_FILE_HANDLE_ALREADY_REGISTERED => CuFileError::HandleAlreadyRegistered,
            status::CU_FILE_IO_NOT_SUPPORTED => CuFileError::IoNotSupported,
            status::CU_FILE_INVALID_FILE_TYPE => CuFileError::InvalidFile,
            status::CU_FILE_DRIVER_NOT_INITIALIZED => CuFileError::DriverNotInitialized,
            status::CU_FILE_DRIVER_INVALID_PROPS => CuFileError::DriverInvalidProps,
            status::CU_FILE_DRIVER_UNSUPPORTED_LIMIT => CuFileError::DriverUnsupportedLimit,
            status::CU_FILE_DRIVER_VERSION_MISMATCH => CuFileError::DriverVersionMismatch,
            status::CU_FILE_DRIVER_VERSION_READ_ERROR => CuFileError::DriverVersionReadError,
            status::CU_FILE_DRIVER_CLOSING => CuFileError::DriverClosing,
            status::CU_FILE_PLATFORM_NOT_SUPPORTED => CuFileError::PlatformNotSupported,
            status::CU_FILE_DEVICE_NOT_SUPPORTED => CuFileError::DeviceNotSupported,
            status::CU_FILE_NVFS_DRIVER_ERROR => CuFileError::NvfsDriverError,
            status::CU_FILE_CUDA_DRIVER_ERROR => CuFileError::CudaDriverError,
            status::CU_FILE_CUDA_POINTER_INVALID => CuFileError::CudaPointerInvalid,
            status::CU_FILE_CUDA_MEMORY_TYPE_INVALID => CuFileError::CudaMemoryTypeInvalid,
            status::CU_FILE_CUDA_POINTER_RANGE_ERROR => CuFileError::CudaPointerRangeError,
            status::CU_FILE_CUDA_CONTEXT_MISMATCH => CuFileError::CudaContextMismatch,
            status::CU_FILE_INVALID_MAPPING_SIZE => CuFileError::InvalidMappingSize,
            status::CU_FILE_INVALID_MAPPING_RANGE => CuFileError::InvalidMappingRange,
            status::CU_FILE_INVALID_FILE_OPEN_FLAG => CuFileError::InvalidFileOpenFlag,
            status::CU_FILE_DIO_NOT_SET => CuFileError::DioNotSet,
            status::CU_FILE_MEMORY_ALREADY_REGISTERED => CuFileError::MemoryAlreadyRegistered,
            status::CU_FILE_MEMORY_NOT_REGISTERED => CuFileError::MemoryNotRegistered,
            status::CU_FILE_DRIVER_ALREADY_OPEN => CuFileError::DriverAlreadyOpen,
            status::CU_FILE_HANDLE_NOT_REGISTERED => CuFileError::HandleNotRegistered,
            status::CU_FILE_DEVICE_NOT_FOUND => CuFileError::DeviceNotFound,
            status::CU_FILE_INTERNAL_ERROR => CuFileError::InternalError,
            status::CU_FILE_GETNEWFD_FAILED => CuFileError::GetNewFdFailed,
            status::CU_FILE_NVFS_SETUP_ERROR => CuFileError::NvfsSetupError,
            status::CU_FILE_IO_DISABLED => CuFileError::IoDisabled,
            status::CU_FILE_BATCH_SUBMIT_FAILED => CuFileError::BatchSubmitFailed,
            status::CU_FILE_GPU_MEMORY_PINNING_FAILED => CuFileError::GpuMemoryPinningFailed,
            status::CU_FILE_BATCH_FULL => CuFileError::BatchFull,
            status::CU_FILE_ASYNC_NOT_SUPPORTED => CuFileError::AsyncNotSupported,
            code => CuFileError::Unknown(code),
        }
    }
}

impl vstd::std_specs::convert::FromSpecImpl<i32> for CuFileError {
    open spec fn obeys_from_spec() -> bool {
        true
    }

    open spec fn from_spec(code: i32) -> Self {
        error_for_code(code)
    }
}

/// The outcome that a status code stands for: success for `CU_FILE_SUCCESS`,
/// the corresponding error for any other code.
pub open spec fn status_result(code: i32) -> CuFileResult<()> {
    if code == status::CU_FILE_SUCCESS {
        Ok(())
    } else {
        Err(error_for_code(code))
    }
}

/// Convert a CuFile error code to a Result
pub fn check_cufile_error(code: i32) -> (r: CuFileResult<()>)
    ensures
        r == status_result(code),
        r is Ok <==> code == status::CU_FILE_SUCCESS,
        r matches Err(e) ==> e != CuFileError::Success,
{
    proof {
        lemma_success_code_only(code);
    }
    match code {
        status::CU_FILE_SUCCESS => Ok(()),
        code => Err(CuFileError::from(code)),
    }
}

/// Only `CU_FILE_SUCCESS` stands for `Success`.
pub proof fn lemma_success_code_only(code: i32)
    ensures
        error_for_code(code) == CuFileError::Success <==> code == status::CU_FILE_SUCCESS,
{
}

/// Distinct status codes stand for distinct errors, so an error always tells
/// which code produced it.
pub proof fn lemma_error_for_code_injective(a: i32, b: i32)
    requires
        error_for_code(a) == error_for_code(b),
    ensures
        a == b,
{
}

/// A code stands for `Unknown` exactly when it is not a known cuFile code, and
/// `Unknown` then carries the code itself; no code stands for `IoError`.
pub proof fn lemma_unknown_codes(code: i32)
    ensures
        error_for_code(code) is Unknown <==> !is_known_code(code),
        error_for_code(code) matches CuFileError::Unknown(k) ==> k == code,
        error_for_code(code) != CuFileError::IoError,
{
}

} // verus!
