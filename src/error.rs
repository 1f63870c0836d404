//! Status codes reported by the foreign runtime and their typed errors.
use vstd::prelude::*;

verus! {

/// The closed set of errors that the foreign runtime can report.
#[allow(non_camel_case_types)]
#[derive(Debug, Clone, Copy, PartialEq, Eq, Structural)]
pub enum NrtError {
    /// Generic runtime error; also what an unrecognised status becomes.
    NRT_FAILURE,
    /// Invalid artifact, bad instruction, or a tensor name or size that does not match the model.
    NRT_INVALID,
    /// Invalid handle, such as a null handle or one the runtime does not know.
    NRT_INVALID_HANDLE,
    /// A resource could not be allocated.
    NRT_RESOURCE,
    /// The operation timed out.
    NRT_TIMEOUT,
    /// Hardware failure.
    NRT_HW_ERROR,
    /// The execution request queue is full.
    NRT_QUEUE_FULL,
    /// Not enough cores are available for the requested range.
    NRT_LOAD_NOT_ENOUGH_NC,
    /// The artifact's version is not supported.
    NRT_UNSUPPORTED_NEFF_VERSION,
    /// The runtime has not been initialised.
    NRT_UNINITIALIZED,
    /// The runtime has been closed.
    NRT_CLOSED,
    /// Invalid input was submitted for execution.
    NRT_EXEC_BAD_INPUT,
    /// Execution completed with numerical errors.
    NRT_EXEC_COMPLETED_WITH_NUM_ERROR,
    /// Execution completed with other logical or hardware errors.
    NRT_EXEC_COMPLETED_WITH_ERROR,
    /// The core is in use by another model or thread.
    NRT_EXEC_NC_BUSY,
    /// An indirect copy or embedding update went out of bounds.
    NRT_OOB,
    /// Suspected hang in a collectives operation.
    NRT_EXEC_HW_ERR_COLLECTIVES,
    /// Uncorrectable memory error.
    NRT_EXEC_HW_ERR_HBM_UE,
}

/// Result of an operation that may fail with a runtime error.
pub type NrtResult<T> = Result<T, NrtError>;

/// The status code under which the foreign runtime reports `e`.
pub open spec fn status_code(e: NrtError) -> u32 {
    match e {
        NrtError::NRT_FAILURE => 1,
        NrtError::NRT_INVALID => 2,
        NrtError::NRT_INVALID_HANDLE => 3,
        NrtError::NRT_RESOURCE => 4,
        NrtError::NRT_TIMEOUT => 5,
        NrtError::NRT_HW_ERROR => 6,
        NrtError::NRT_QUEUE_FULL => 7,
        NrtError::NRT_LOAD_NOT_ENOUGH_NC => 9,
        NrtError::NRT_UNSUPPORTED_NEFF_VERSION => 10,
        NrtError::NRT_UNINITIALIZED => 13,
        NrtError::NRT_CLOSED => 14,
        NrtError::NRT_EXEC_BAD_INPUT => 1002,
        NrtError::NRT_EXEC_COMPLETED_WITH_NUM_ERROR => 1003,
        NrtError::NRT_EXEC_COMPLETED_WITH_ERROR => 1004,
        NrtError::NRT_EXEC_NC_BUSY => 1005,
        NrtError::NRT_OOB => 1006,
        NrtError::NRT_EXEC_HW_ERR_COLLECTIVES => 1200,
        NrtError::NRT_EXEC_HW_ERR_HBM_UE => 1201,
    }
}

/// The status codes that name an error of the closed set.
pub open spec fn is_known_status(s: u32) -> bool {
    exists|e: NrtError| status_code(e) == s
}

/// The error that a status stands for: the one whose code it is, or
/// `NRT_FAILURE` for any code outside the known set.
pub open spec fn classify(s: u32) -> NrtError {
    match s {
        2 => NrtError::NRT_INVALID,
        3 => NrtError::NRT_INVALID_HANDLE,
        4 => NrtError::NRT_RESOURCE,
        5 => NrtError::NRT_TIMEOUT,
        6 => NrtError::NRT_HW_ERROR,
        7 => NrtError::NRT_QUEUE_FULL,
        9 => NrtError::NRT_LOAD_NOT_ENOUGH_NC,
        10 => NrtError::NRT_UNSUPPORTED_NEFF_VERSION,
        13 => NrtError::NRT_UNINITIALIZED,
        14 => NrtError::NRT_CLOSED,
        1002 => NrtError::NRT_EXEC_BAD_INPUT,
        1003 => NrtError::NRT_EXEC_COMPLETED_WITH_NUM_ERROR,
        1004 => NrtError::NRT_EXEC_COMPLETED_WITH_ERROR,
        1005 => NrtError::NRT_EXEC_NC_BUSY,
        1006 => NrtError::NRT_OOB,
        1200 => NrtError::NRT_EXEC_HW_ERR_COLLECTIVES,
        1201 => NrtError::NRT_EXEC_HW_ERR_HBM_UE,
        _ => NrtError::NRT_FAILURE,
    }
}

/// What a foreign call that produced `val` with status `status` amounts to.
pub open spec fn status_result<T>(val: T, status: u32) -> NrtResult<T> {
    if status == 0 {
        Ok(val)
    } else {
        Err(classify(status))
    }
}

impl NrtError {
    /// The typed error for a status reported by the foreign runtime. Total:
    /// a status outside the known set becomes `NRT_FAILURE`.
    pub fn from_status(status: u32) -> (r: NrtError)
        ensures
            r == classify(status),
    {
        match status {
            2 => NrtError::NRT_INVALID,
            3 => NrtError::NRT_INVALID_HANDLE,
            4 => NrtError::NRT_RESOURCE,
            5 => NrtError::NRT_TIMEOUT,
            6 => NrtError::NRT_HW_ERROR,
            7 => NrtError::NRT_QUEUE_FULL,
            9 => NrtError::NRT_LOAD_NOT_ENOUGH_NC,
            10 => NrtError::NRT_UNSUPPORTED_NEFF_VERSION,
            13 => NrtError::NRT_UNINITIALIZED,
            14 => NrtError::NRT_CLOSED,
            1002 => NrtError::NRT_EXEC_BAD_INPUT,
            1003 => NrtError::NRT_EXEC_COMPLETED_WITH_NUM_ERROR,
            1004 => NrtError::NRT_EXEC_COMPLETED_WITH_ERROR,
            1005 => NrtError::NRT_EXEC_NC_BUSY,
            1006 => NrtError::NRT_OOB,
            1200 => NrtError::NRT_EXEC_HW_ERR_COLLECTIVES,
            1201 => NrtError::NRT_EXEC_HW_ERR_HBM_UE,
            _ => NrtError::NRT_FAILURE,
        }
    }

    /// The status code under which the foreign runtime reports this error.
    pub fn code(&self) -> (r: u32)
        ensures
            r == status_code(*self),
    {
        match self {
            NrtError::NRT_FAILURE => 1,
            NrtError::NRT_INVALID => 2,
            NrtError::NRT_INVALID_HANDLE => 3,
            NrtError::NRT_RESOURCE => 4,
            NrtError::NRT_TIMEOUT => 5,
            NrtError::NRT_HW_ERROR => 6,
            NrtError::NRT_QUEUE_FULL => 7,
            NrtError::NRT_LOAD_NOT_ENOUGH_NC => 9,
            NrtError::NRT_UNSUPPORTED_NEFF_VERSION => 10,
            NrtError::NRT_UNINITIALIZED => 13,
            NrtError::NRT_CLOSED => 14,
            NrtError::NRT_EXEC_BAD_INPUT => 1002,
            NrtError::NRT_EXEC_COMPLETED_WITH_NUM_ERROR => 1003,
            NrtError::NRT_EXEC_COMPLETED_WITH_ERROR => 1004,
            NrtError::NRT_EXEC_NC_BUSY => 1005,
            NrtError::NRT_OOB => 1006,
            NrtError::NRT_EXEC_HW_ERR_COLLECTIVES => 1200,
            NrtError::NRT_EXEC_HW_ERR_HBM_UE => 1201,
        }
    }
}

impl From<u32> for NrtError {
    fn from(status: u32) -> (r: NrtError) {
        NrtError::from_status(status)
    }
}

impl vstd::std_specs::convert::FromSpecImpl<u32> for NrtError {
    open spec fn obeys_from_spec() -> bool {
        true
    }

    open spec fn from_spec(status: u32) -> NrtError {
        classify(status)
    }
}

impl From<NrtError> for u32 {
    fn from(e: NrtError) -> (r: u32) {
        e.code()
    }
}

impl vstd::std_specs::convert::FromSpecImpl<NrtError> for u32 {
    open spec fn obeys_from_spec() -> bool {
        true
    }

    open spec fn from_spec(e: NrtError) -> u32 {
        status_code(e)
    }
}

/// Turns the status of a foreign call into a result: `Ok(val)` on status 0,
/// the classified error otherwise.
pub fn nrt_result<T>(val: T, status: u32) -> (r: NrtResult<T>)
    ensures
        r == status_result(val, status),
{
    if status == 0 {
        Ok(val)
    } else {
        Err(NrtError::from_status(status))
    }
}

/// Every status outside the known set classifies as `NRT_FAILURE`.
pub proof fn lemma_unknown_status_is_failure(x: u32)
    requires
        !is_known_status(x),
    ensures
        classify(x) == NrtError::NRT_FAILURE,
{
    if classify(x) != NrtError::NRT_FAILURE {
        assert(status_code(classify(x)) == x);
    }
}

/// Each error's own code classifies back to that error, so no two errors share a code.
pub proof fn lemma_classify_code(e: NrtError)
    ensures
        classify(status_code(e)) == e,
        status_code(e) != 0,
{
}

/// A known status is the code of the error it classifies as.
pub proof fn lemma_known_status_code(x: u32)
    requires
        is_known_status(x),
    ensures
        status_code(classify(x)) == x,
{
    let e = choose|e: NrtError| status_code(e) == x;
    lemma_classify_code(e);
}

} // verus!
