//! Numeric values of the enumerations and error codes of the Nix C API
//! (`nix_api_util.h`) and of the Boehm garbage collector (`gc.h`).

use vstd::prelude::*;

verus! {

/// `NIX_LVL_ERROR`
pub const NIX_LVL_ERROR: u32 = 0;
/// `NIX_LVL_WARN`
pub const NIX_LVL_WARN: u32 = 1;
/// `NIX_LVL_NOTICE`
pub const NIX_LVL_NOTICE: u32 = 2;
/// `NIX_LVL_INFO`
pub const NIX_LVL_INFO: u32 = 3;
/// `NIX_LVL_TALKATIVE`
pub const NIX_LVL_TALKATIVE: u32 = 4;
/// `NIX_LVL_CHATTY`
pub const NIX_LVL_CHATTY: u32 = 5;
/// `NIX_LVL_DEBUG`
pub const NIX_LVL_DEBUG: u32 = 6;
/// `NIX_LVL_VOMIT`
pub const NIX_LVL_VOMIT: u32 = 7;

/// `NIX_ACTIVITY_TYPE_UNKNOWN`
pub const NIX_ACTIVITY_TYPE_UNKNOWN: u32 = 0;
/// `NIX_ACTIVITY_TYPE_COPY_PATH`
pub const NIX_ACTIVITY_TYPE_COPY_PATH: u32 = 100;
/// `NIX_ACTIVITY_TYPE_FILE_TRANSFER`
pub const NIX_ACTIVITY_TYPE_FILE_TRANSFER: u32 = 101;
/// `NIX_ACTIVITY_TYPE_REALISE`
pub const NIX_ACTIVITY_TYPE_REALISE: u32 = 102;
/// `NIX_ACTIVITY_TYPE_COPY_PATHS`
pub const NIX_ACTIVITY_TYPE_COPY_PATHS: u32 = 103;
/// `NIX_ACTIVITY_TYPE_BUILDS`
pub const NIX_ACTIVITY_TYPE_BUILDS: u32 = 104;
/// `NIX_ACTIVITY_TYPE_BUILD`
pub const NIX_ACTIVITY_TYPE_BUILD: u32 = 105;
/// `NIX_ACTIVITY_TYPE_OPTIMISE_STORE`
pub const NIX_ACTIVITY_TYPE_OPTIMISE_STORE: u32 = 106;
/// `NIX_ACTIVITY_TYPE_VERIFY_PATHS`
pub const NIX_ACTIVITY_TYPE_VERIFY_PATHS: u32 = 107;
/// `NIX_ACTIVITY_TYPE_SUBSTITUTE`
pub const NIX_ACTIVITY_TYPE_SUBSTITUTE: u32 = 108;
/// `NIX_ACTIVITY_TYPE_QUERY_PATH_INFO`
pub const NIX_ACTIVITY_TYPE_QUERY_PATH_INFO: u32 = 109;
/// `NIX_ACTIVITY_TYPE_POST_BUILD_HOOK`
pub const NIX_ACTIVITY_TYPE_POST_BUILD_HOOK: u32 = 110;
/// `NIX_ACTIVITY_TYPE_BUILD_WAITING`
pub const NIX_ACTIVITY_TYPE_BUILD_WAITING: u32 = 111;
/// `NIX_ACTIVITY_TYPE_FETCH_TREE`
pub const NIX_ACTIVITY_TYPE_FETCH_TREE: u32 = 112;

/// `NIX_RESULT_TYPE_FILE_LINKED`
pub const NIX_RESULT_TYPE_FILE_LINKED: u32 = 100;
/// `NIX_RESULT_TYPE_BUILD_LOG_LINE`
pub const NIX_RESULT_TYPE_BUILD_LOG_LINE: u32 = 101;
/// `NIX_RESULT_TYPE_UNTRUSTED_PATH`
pub const NIX_RESULT_TYPE_UNTRUSTED_PATH: u32 = 102;
/// `NIX_RESULT_TYPE_CORRUPTED_PATH`
pub const NIX_RESULT_TYPE_CORRUPTED_PATH: u32 = 103;
/// `NIX_RESULT_TYPE_SET_PHASE`
pub const NIX_RESULT_TYPE_SET_PHASE: u32 = 104;
/// `NIX_RESULT_TYPE_PROGRESS`
pub const NIX_RESULT_TYPE_PROGRESS: u32 = 105;
/// `NIX_RESULT_TYPE_SET_EXPECTED`
pub const NIX_RESULT_TYPE_SET_EXPECTED: u32 = 106;
/// `NIX_RESULT_TYPE_POST_BUILD_LOG_LINE`
pub const NIX_RESULT_TYPE_POST_BUILD_LOG_LINE: u32 = 107;
/// `NIX_RESULT_TYPE_FETCH_STATUS`
pub const NIX_RESULT_TYPE_FETCH_STATUS: u32 = 108;
/// `NIX_RESULT_TYPE_HASH_MISMATCH`
pub const NIX_RESULT_TYPE_HASH_MISMATCH: u32 = 109;
/// `NIX_RESULT_TYPE_BUILD_RESULT`
pub const NIX_RESULT_TYPE_BUILD_RESULT: u32 = 110;

/// `NIX_OK`
pub const NIX_OK: i32 = 0;
/// `NIX_ERR_UNKNOWN`
pub const NIX_ERR_UNKNOWN: i32 = -1;
/// `NIX_ERR_OVERFLOW`
pub const NIX_ERR_OVERFLOW: i32 = -2;
/// `NIX_ERR_KEY`
pub const NIX_ERR_KEY: i32 = -3;
/// `NIX_ERR_NIX_ERROR`
pub const NIX_ERR_NIX_ERROR: i32 = -4;
/// `NIX_ERR_RECOVERABLE`
pub const NIX_ERR_RECOVERABLE: i32 = -5;

/// `GC_DUPLICATE`
pub const GC_DUPLICATE: u32 = 1;
/// `GC_NO_MEMORY`
pub const GC_NO_MEMORY: u32 = 2;
/// `GC_UNIMPLEMENTED`
pub const GC_UNIMPLEMENTED: u32 = 3;
/// `GC_NOT_FOUND`
pub const GC_NOT_FOUND: u32 = 4;

} // verus!
