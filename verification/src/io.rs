//! What a synchronous cuFile read or write returns to its caller.
//!
//! `cuFileRead` and `cuFileWrite` return the number of bytes transferred, or a
//! negative value for a failure: `-1` for a filesystem error, in which case the
//! OS error number (`errno`) holds the status, and `-c` for an operation error
//! with status code `c`. A read or write reports the bytes transferred, or the
//! error; a failure is never reported as a count.
use vstd::prelude::*;
use crate::error::{error_for_code, status_result, CuFileError, CuFileResult};

verus! {

/// The outcome of a transfer whose call returned `ret`, where `errno` is the OS
/// error number read right after a return of `-1`:
/// - a count of bytes (`ret >= 0`) is the result;
/// - `-1` is the error that `errno` stands for, or `IoError` when no error
///   number was left;
/// - `-c` is the error that the operation status `c` stands for (`IoError`
///   where `c` is no `i32`).
pub open spec fn transfer_result(ret: isize, errno: i32) -> CuFileResult<isize> {
    if ret >= 0 {
        Ok(ret)
    } else if ret == -1 {
        if errno == 0 {
            Err(CuFileError::IoError)
        } else {
            Err(error_for_code(errno))
        }
    } else if -ret <= i32::MAX {
        Err(error_for_code((-ret) as i32))
    } else {
        Err(CuFileError::IoError)
    }
}

/// The outcome of a transfer as a count of bytes.
pub open spec fn transfer_count(ret: isize, errno: i32) -> CuFileResult<usize> {
    match transfer_result(ret, errno) {
        Ok(n) => Ok(n as usize),
        Err(e) => Err(e),
    }
}

/// Interprets the value `ret` that `cuFileRead` or `cuFileWrite` returned:
/// what `read_raw` and `write_raw` of a handle return. `errno` is consulted
/// only for a return of `-1`.
pub fn raw_io_result(ret: isize, errno: i32) -> (r: CuFileResult<isize>)
    ensures
        r == transfer_result(ret, errno),
        r is Ok <==> ret >= 0,
        r matches Ok(n) ==> n == ret,
        ret == -1 && errno != 0 ==> r == Err::<isize, CuFileError>(error_for_code(errno)),
        ret == -1 && errno == 0 ==> r == Err::<isize, CuFileError>(CuFileError::IoError),
        ret < -1 && -ret <= i32::MAX ==> r == Err::<isize, CuFileError>(
            error_for_code((-ret) as i32),
        ),
{
    if ret >= 0 {
        Ok(ret)
    } else if ret == -1 {
        if errno == 0 {
            // the call failed without leaving an error number
            Err(CuFileError::IoError)
        } else {
            Err(CuFileError::from(errno))
        }
    } else if ret >= -(i32::MAX as isize) {
        // an operation error, reported as the negated status code
        let code = (-ret) as i32;
        Err(CuFileError::from(code))
    } else {
        Err(CuFileError::IoError)
    }
}

/// The number of bytes that a read or write of a handle reports for the value
/// `ret` returned by `cuFileRead` or `cuFileWrite` (see `raw_io_result`): the
/// result of `raw_io_result` with the count taken as a `usize`.
pub fn io_result(ret: isize, errno: i32) -> (r: CuFileResult<usize>)
    ensures
        r == transfer_count(ret, errno),
        r is Ok <==> ret >= 0,
        r matches Ok(n) ==> n == ret,
        ret == -1 && errno != 0 ==> r == Err::<usize, CuFileError>(error_for_code(errno)),
        ret == -1 && errno == 0 ==> r == Err::<usize, CuFileError>(CuFileError::IoError),
        ret < -1 && -ret <= i32::MAX ==> r == Err::<usize, CuFileError>(
            error_for_code((-ret) as i32),
        ),
{
    match raw_io_result(ret, errno) {
        Ok(n) => Ok(n as usize),
        Err(e) => Err(e),
    }
}

/// A transfer that failed with a filesystem error (`-1`) reports exactly the
/// error that `check_cufile_error` gives for the error number it left, and
/// `IoError` when it left none; a count is never reported for it.
pub proof fn lemma_filesystem_error_reports_errno(errno: i32)
    ensures
        errno != 0 ==> transfer_result(-1isize, errno) == Err::<isize, CuFileError>(
            error_for_code(errno),
        ),
        status_result(errno) matches Err(e) ==> transfer_result(-1isize, errno) == Err::<
            isize,
            CuFileError,
        >(e) && transfer_count(-1isize, errno) == Err::<usize, CuFileError>(e),
        errno == 0 ==> transfer_result(-1isize, errno) == Err::<isize, CuFileError>(
            CuFileError::IoError,
        ),
        transfer_count(-1isize, errno) is Err,
{
}

/// A transfer that failed with an operation error (`-c` for a status code
/// `c > 1`) reports exactly the error that `c` stands for.
pub proof fn lemma_operation_error_reports_code(code: i32, errno: i32)
    requires
        code > 1,
    ensures
        transfer_result((-code) as isize, errno) == Err::<isize, CuFileError>(
            error_for_code(code),
        ),
        transfer_count((-code) as isize, errno) == Err::<usize, CuFileError>(
            error_for_code(code),
        ),
{
}

/// A transfer succeeds exactly when its call returned a count, and then it
/// reports that count, as a read or write of a handle does as well.
pub proof fn lemma_success_is_the_count(ret: isize, errno: i32)
    ensures
        transfer_result(ret, errno) is Ok <==> ret >= 0,
        ret >= 0 ==> transfer_result(ret, errno) == Ok::<isize, CuFileError>(ret),
        ret >= 0 ==> transfer_count(ret, errno) == Ok::<usize, CuFileError>(ret as usize),
{
}

} // verus!
