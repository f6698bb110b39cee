//! Safe building blocks for NVIDIA cuFile (GPU Direct Storage): the error
//! model of the cuFile API, and the bookkeeping of drivers, registered buffers
//! and I/O results.
mod buffer;
mod driver;
mod error;
mod io;
pub mod status;
mod text;

pub use buffer::{lemma_typed_buffer_len, BufferFlags, RegisteredBuffer};
pub use driver::{
    init_outcome, lemma_init_idempotent, lemma_init_reports_open_status, lemma_init_opens_on_success, CuFileDriver, DriverState,
};
pub use error::{
    check_cufile_error, error_for_code, is_known_code, lemma_error_for_code_injective,
    lemma_success_code_only, lemma_unknown_codes, status_result, CuFileError, CuFileResult,
};
pub use io::{
    io_result, lemma_filesystem_error_reports_errno, lemma_operation_error_reports_code,
    lemma_success_is_the_count, raw_io_result, transfer_count, transfer_result,
};
pub use text::{decimal, decimal_string, digit_char, digits_of, get_error_string, unknown_error_text};
