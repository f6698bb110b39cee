//! The cuFile driver: opened once, before any other cuFile operation, and
//! closed when the driver is dropped.
use vstd::prelude::*;
use crate::error::{check_cufile_error, error_for_code, status_result, CuFileError, CuFileResult};

verus! {

/// CuFile driver manager
pub struct CuFileDriver;

/// Whether the cuFile driver has been opened: the process-wide flag that makes
/// repeated initialization a no-op.
pub struct DriverState {
    initialized: bool,
}

impl DriverState {
    /// Whether the driver is open.
    pub closed spec fn spec_initialized(&self) -> bool {
        self.initialized
    }

    /// The state of a process in which the driver has not been opened.
    pub fn new() -> (s: Self)
        ensures
            !s.spec_initialized(),
    {
        DriverState { initialized: false }
    }

    /// Whether the driver is open.
    pub fn is_initialized(&self) -> (b: bool)
        ensures
            b == self.spec_initialized(),
    {
        self.initialized
    }
}

/// The outcome of initialization from a state in which the driver is open
/// (`initialized`) or not, where `status` is what opening the driver returns:
/// whether the driver is open afterwards, and what `init` returns.
pub open spec fn init_outcome(initialized: bool, status: i32) -> (bool, CuFileResult<CuFileDriver>) {
    if initialized {
        (true, Ok(CuFileDriver))
    } else {
        match status_result(status) {
            Ok(()) => (true, Ok(CuFileDriver)),
            Err(e) => (false, Err(e)),
        }
    }
}

impl CuFileDriver {
    /// Initialize the CuFile driver
    ///
    /// This must be called before using any other CuFile operations.
    /// It's safe to call this multiple times - subsequent calls will be no-ops.
    /// `open` opens the driver (`cuFileDriverOpen`) and returns its status; it
    /// is called only when `state` says that the driver is not open yet, and
    /// then exactly once.
    pub fn init<F: FnOnce() -> i32>(state: &mut DriverState, open: F) -> (r: CuFileResult<
        CuFileDriver,
    >)
        requires
            !old(state).spec_initialized() ==> call_requires(open, ()),
        ensures
            old(state).spec_initialized() ==> r is Ok && final(state).spec_initialized(),
            !old(state).spec_initialized() ==> exists|status: i32|
                #![trigger init_outcome(false, status)]
                call_ensures(open, (), status) && init_outcome(false, status) == (
                final(state).spec_initialized(),
                r,
            ),
            final(state).spec_initialized() <==> r is Ok,
            !old(state).spec_initialized() ==> exists|status: i32| #[trigger]
                call_ensures(open, (), status) && (status == crate::status::CU_FILE_SUCCESS
                    ==> r == Ok::<CuFileDriver, CuFileError>(CuFileDriver)) && (status
                    != crate::status::CU_FILE_SUCCESS ==> r == Err::<CuFileDriver, CuFileError>(
                    error_for_code(status),
                )),
    {
        if state.initialized {
            return Ok(CuFileDriver);
        }
        let status = open();
        match check_cufile_error(status) {
            Ok(()) => {},
            Err(e) => {
                assert(init_outcome(false, status) == (false, Err::<CuFileDriver, CuFileError>(e)));
                return Err(e);
            },
        }
        state.initialized = true;
        assert(init_outcome(false, status) == (true, Ok::<CuFileDriver, CuFileError>(CuFileDriver)));
        Ok(CuFileDriver)
    }

    /// Releases the driver: when `state` says that the driver is open, `close`
    /// closes it (`cuFileDriverClose`, whose status is ignored) and the driver
    /// is no longer open; otherwise `close` is not called and nothing happens.
    pub fn close<F: FnOnce() -> i32>(self, state: &mut DriverState, close: F)
        requires
            old(state).spec_initialized() ==> call_requires(close, ()),
        ensures
            !final(state).spec_initialized(),
            old(state).spec_initialized() ==> exists|status: i32| #[trigger]
                call_ensures(close, (), status),
    {
        if state.initialized {
            let _ = close();
            state.initialized = false;
        }
    }
}

/// Initializing again after a successful initialization opens nothing and
/// succeeds, whatever opening the driver would return.
pub proof fn lemma_init_idempotent(initialized: bool, first: i32, second: i32)
    requires
        init_outcome(initialized, first).1 is Ok,
    ensures
        init_outcome(init_outcome(initialized, first).0, second) == init_outcome(
            initialized,
            first,
        ),
{
}

/// The driver is open after initialization exactly when initialization succeeded.
pub proof fn lemma_init_opens_on_success(initialized: bool, status: i32)
    ensures
        init_outcome(initialized, status).0 <==> init_outcome(initialized, status).1 is Ok,
        init_outcome(initialized, status).1 is Ok <==> (initialized || status == crate::status::CU_FILE_SUCCESS),
{
}

/// Opening a closed driver reports exactly what `check_cufile_error` gives for
/// the status of the open: success leaves the driver open, and any other
/// status is the error that it stands for, with the driver left closed.
pub proof fn lemma_init_reports_open_status(status: i32)
    ensures
        status == crate::status::CU_FILE_SUCCESS ==> init_outcome(false, status) == (
            true,
            Ok::<CuFileDriver, CuFileError>(CuFileDriver),
        ),
        status != crate::status::CU_FILE_SUCCESS ==> init_outcome(false, status) == (
            false,
            Err::<CuFileDriver, CuFileError>(error_for_code(status)),
        ),
        status_result(status) matches Err(e) ==> init_outcome(false, status).1 == Err::<
            CuFileDriver,
            CuFileError,
        >(e),
{
}

} // verus!
