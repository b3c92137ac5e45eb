use vstd::prelude::*;

verus! {

/// The code of "Application does not have permission for this action".
pub const PERMISSION_ERROR_CODE: i64 = 10;

/// Whether a request that failed with `code` must not be sent again: the error
/// is permanent, and a retry only burns publish quota.
pub fn is_non_retryable_permanent_error_code(code: i64) -> (permanent: bool)
    ensures
        permanent == (code == PERMISSION_ERROR_CODE),
        permanent <==> code == 10,
{
    code == PERMISSION_ERROR_CODE
}

} // verus!
