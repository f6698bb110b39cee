//! Text for errors and status codes: decimal rendering of codes, the message
//! of each error, and the description of a status code.
use vstd::prelude::*;
use crate::error::CuFileError;

verus! {

/// The character of a decimal digit.
pub open spec fn digit_char(d: nat) -> char {
    (48 + d) as char
}

/// The decimal digits of `n`, most significant first, without leading zeros
/// (and a single `0` for zero).
pub open spec fn digits_of(n: nat) -> Seq<char>
    decreases n,
{
    if n < 10 {
        seq![digit_char(n)]
    } else {
        digits_of(n / 10) + seq![digit_char(n % 10)]
    }
}

/// The decimal rendering of `x`, with a leading `-` when it is negative.
pub open spec fn decimal(x: int) -> Seq<char> {
    if x < 0 {
        seq!['-'] + digits_of((-x) as nat)
    } else {
        digits_of(x as nat)
    }
}

/// The text of a single decimal digit.
fn digit_str(d: u64) -> (s: &'static str)
    requires
        d < 10,
    ensures
        s@ == seq![digit_char(d as nat)],
{
    proof {
        reveal_strlit("0");
        reveal_strlit("1");
        reveal_strlit("2");
        reveal_strlit("3");
        reveal_strlit("4");
        reveal_strlit("5");
        reveal_strlit("6");
        reveal_strlit("7");
        reveal_strlit("8");
        reveal_strlit("9");
    }
    match d {
        0 => "0",
        1 => "1",
        2 => "2",
        3 => "3",
        4 => "4",
        5 => "5",
        6 => "6",
        7 => "7",
        8 => "8",
        _ => "9",
    }
}

/// Appends the decimal digits of `n` to `s`.
fn push_digits(s: &mut String, n: u64)
    ensures
        final(s)@ == old(s)@ + digits_of(n as nat),
    decreases n,
{
    if n >= 10 {
        push_digits(s, n / 10);
    }
    s.append(digit_str(n % 10));
    proof {
        assert(old(s)@ + digits_of(n as nat) =~= s@);
    }
}

/// The decimal rendering of a status code, as `{}` formats an `i32`.
pub fn decimal_string(x: i32) -> (s: String)
    ensures
        s@ == decimal(x as int),
{
    let mut s = String::new();
    let magnitude: u64;
    if x < 0 {
        proof {
            reveal_strlit("-");
        }
        s.append("-");
        magnitude = (-(x as i64)) as u64;
    } else {
        magnitude = x as u64;
    }
    push_digits(&mut s, magnitude);
    s
}

/// The text that stands for a status code for which the cuFile library has
/// no description of its own.
pub open spec fn unknown_error_text(error: i32) -> Seq<char> {
    "Unknown error: "@ + decimal(error as int)
}

/// Get the error string for a CuFile error code: `description` is what the
/// cuFile library reports for `error` (`None` where it reports nothing); the
/// result is that description, or `Unknown error: <code>` in its absence.
pub fn get_error_string(error: i32, description: Option<String>) -> (s: String)
    ensures
        description matches Some(d) ==> s@ == d@,
        description is None ==> s@ == unknown_error_text(error),
{
    match description {
        Some(d) => d,
        None => {
            let mut s = String::from_str("Unknown error: ");
            let digits = decimal_string(error);
            s.append(digits.as_str());
            s
        },
    }
}

impl CuFileError {
    /// The message of the error, as the error is displayed.
    pub open spec fn message_spec(self) -> Seq<char> {
        match self {
            CuFileError::Success => "Success"@,
            CuFileError::InvalidValue => "Invalid value provided"@,
            CuFileError::IoError => "I/O error occurred"@,
            CuFileError::PermissionDenied => "Permission denied"@,
            CuFileError::Unknown(code) => unknown_error_text(code),
            CuFileError::HandleAlreadyRegistered => "Handle already registered"@,
            CuFileError::IoNotSupported => "FS or device I/O not supported"@,
            CuFileError::InvalidFile => "Invalid file type"@,
            CuFileError::DriverNotInitialized => "The nvidia-fs driver is not loaded"@,
            CuFileError::DriverInvalidProps => "Invalid property"@,
            CuFileError::DriverUnsupportedLimit => "Property range error"@,
            CuFileError::DriverVersionMismatch => "nvidia-fs driver version mismatch"@,
            CuFileError::DriverVersionReadError => "nvidia-fs driver version read error"@,
            CuFileError::DriverClosing => "Driver shutdown in progress"@,
            CuFileError::PlatformNotSupported => "GDS is not supported on the current platform"@,
            CuFileError::DeviceNotSupported => "GDS is not supported on the current GPU"@,
            CuFileError::NvfsDriverError => "nvidia-fs driver ioctl error"@,
            CuFileError::CudaDriverError => "CUDA Driver API error"@,
            CuFileError::CudaPointerInvalid => "Invalid device pointer"@,
            CuFileError::CudaMemoryTypeInvalid => "Invalid pointer memory type"@,
            CuFileError::CudaPointerRangeError => "Pointer range exceeds the allocated address range"@,
            CuFileError::CudaContextMismatch => "CUDA context mismatch"@,
            CuFileError::InvalidMappingSize => "Access beyond the maximum pinned memory size"@,
            CuFileError::InvalidMappingRange => "Access beyond the mapped size"@,
            CuFileError::InvalidFileOpenFlag => "Unsupported file open flags"@,
            CuFileError::DioNotSet => "The fd direct IO is not set"@,
            CuFileError::MemoryAlreadyRegistered => "Device pointer is already registered"@,
            CuFileError::MemoryNotRegistered => "Device pointer lookup failure"@,
            CuFileError::DriverAlreadyOpen => "The driver is already open"@,
            CuFileError::HandleNotRegistered => "The file descriptor is not registered"@,
            CuFileError::DeviceNotFound => "The GPU device cannot be found"@,
            CuFileError::InternalError => "Internal error occurred. Refer to cufile.log for more details"@,
            CuFileError::GetNewFdFailed => "Failed to obtain a new file descriptor"@,
            CuFileError::NvfsSetupError => "NVFS driver initialization error"@,
            CuFileError::IoDisabled => "GDS is disabled by config on the current file"@,
            CuFileError::BatchSubmitFailed => "Failed to submit a batch operation"@,
            CuFileError::GpuMemoryPinningFailed => "Failed to allocate pinned GPU memory"@,
            CuFileError::BatchFull => "Queue full for batch operation"@,
            CuFileError::AsyncNotSupported => "cuFile stream operation is not supported"@,
        }
    }

    /// The message of the error, as the error is displayed.
    pub fn message(&self) -> (m: String)
        ensures
            m@ == self.message_spec(),
    {
        match self {
            CuFileError::Success => String::from_str("Success"),
            CuFileError::InvalidValue => String::from_str("Invalid value provided"),
            CuFileError::IoError => String::from_str("I/O error occurred"),
            CuFileError::PermissionDenied => String::from_str("Permission denied"),
            CuFileError::Unknown(code) => {
                let mut s = String::from_str("Unknown error: ");
                let digits = decimal_string(*code);
                s.append(digits.as_str());
                s
            },
            CuFileError::HandleAlreadyRegistered => String::from_str("Handle already registered"),
            CuFileError::IoNotSupported => String::from_str("FS or device I/O not supported"),
            CuFileError::InvalidFile => String::from_str("Invalid file type"),
            CuFileError::DriverNotInitialized => String::from_str("The nvidia-fs driver is not loaded"),
            CuFileError::DriverInvalidProps => String::from_str("Invalid property"),
            CuFileError::DriverUnsupportedLimit => String::from_str("Property range error"),
            CuFileError::DriverVersionMismatch => String::from_str("nvidia-fs driver version mismatch"),
            CuFileError::DriverVersionReadError => String::from_str("nvidia-fs driver version read error"),
            CuFileError::DriverClosing => String::from_str("Driver shutdown in progress"),
            CuFileError::PlatformNotSupported => String::from_str("GDS is not supported on the current platform"),
            CuFileError::DeviceNotSupported => String::from_str("GDS is not supported on the current GPU"),
            CuFileError::NvfsDriverError => String::from_str("nvidia-fs driver ioctl error"),
            CuFileError::CudaDriverError => String::from_str("CUDA Driver API error"),
            CuFileError::CudaPointerInvalid => String::from_str("Invalid device pointer"),
            CuFileError::CudaMemoryTypeInvalid => String::from_str("Invalid pointer memory type"),
            CuFileError::CudaPointerRangeError => String::from_str("Pointer range exceeds the allocated address range"),
            CuFileError::CudaContextMismatch => String::from_str("CUDA context mismatch"),
            CuFileError::InvalidMappingSize => String::from_str("Access beyond the maximum pinned memory size"),
            CuFileError::InvalidMappingRange => String::from_str("Access beyond the mapped size"),
            CuFileError::InvalidFileOpenFlag => String::from_str("Unsupported file open flags"),
            CuFileError::DioNotSet => String::from_str("The fd direct IO is not set"),
            CuFileError::MemoryAlreadyRegistered => String::from_str("Device pointer is already registered"),
            CuFileError::MemoryNotRegistered => String::from_str("Device pointer lookup failure"),
            CuFileError::DriverAlreadyOpen => String::from_str("The driver is already open"),
            CuFileError::HandleNotRegistered => String::from_str("The file descriptor is not registered"),
            CuFileError::DeviceNotFound => String::from_str("The GPU device cannot be found"),
            CuFileError::InternalError => String::from_str("Internal error occurred. Refer to cufile.log for more details"),
            CuFileError::GetNewFdFailed => String::from_str("Failed to obtain a new file descriptor"),
            CuFileError::NvfsSetupError => String::from_str("NVFS driver initialization error"),
            CuFileError::IoDisabled => String::from_str("GDS is disabled by config on the current file"),
            CuFileError::BatchSubmitFailed => String::from_str("Failed to submit a batch operation"),
            CuFileError::GpuMemoryPinningFailed => String::from_str("Failed to allocate pinned GPU memory"),
            CuFileError::BatchFull => String::from_str("Queue full for batch operation"),
            CuFileError::AsyncNotSupported => String::from_str("cuFile stream operation is not supported"),
        }
    }
}

} // verus!
