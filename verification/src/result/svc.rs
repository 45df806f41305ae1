//! Error codes of the kernel's svc module.
//!
//! Each constant is the description part of an error; `error` builds the
//! full error code in the svc module.

use vstd::prelude::*;
use super::NxError;

verus! {

/// Module number of the kernel's svc errors.
pub const MODULE_CODE: u32 = 1;

pub const OUT_OF_SESSIONS: u32 = 7;
pub const INVALID_ARGUMENT: u32 = 14;
pub const NOT_IMPLEMENTED: u32 = 33;
pub const STOP_PROCESSING_EXCEPTION: u32 = 54;
pub const NO_SYNCHRONIZATION_OBJECT: u32 = 57;
pub const TERMINATION_REQUESTED: u32 = 59;
pub const NO_EVENT: u32 = 70;
pub const INVALID_SIZE: u32 = 101;
pub const INVALID_ADDRESS: u32 = 102;
pub const OUT_OF_RESOURCE: u32 = 103;
pub const OUT_OF_MEMORY: u32 = 104;
pub const OUT_OF_HANDLES: u32 = 105;
pub const INVALID_CURRENT_MEMORY: u32 = 106;
pub const INVALID_NEW_MEMORY_PREMISSION: u32 = 108;
pub const INVALID_MEMORY_REGION: u32 = 110;
pub const INVALID_PRIORITY: u32 = 112;
pub const INVALID_CORE_ID: u32 = 113;
pub const INVALID_HANDLE: u32 = 114;
pub const INVALID_POINTER: u32 = 115;
pub const INVALID_COMBINATION: u32 = 116;
pub const TIMED_OUT: u32 = 117;
pub const CANCELLED: u32 = 118;
pub const OUT_OF_RANGE: u32 = 119;
pub const INVALID_ENUM_VALUE: u32 = 120;
pub const NOT_FOUND: u32 = 121;
pub const BUSY: u32 = 122;
pub const SESSION_CLOSED: u32 = 123;
pub const NOT_HANDLED: u32 = 124;
pub const INVALID_STATE: u32 = 125;
pub const RESERVED_USED: u32 = 126;
pub const NOT_SUPPORTED: u32 = 127;
pub const DEBUG: u32 = 128;
pub const NO_THREAD: u32 = 129;
pub const UNKNOWN_THREAD: u32 = 130;
pub const PORT_CLOSED: u32 = 131;
pub const LIMIT_REACHED: u32 = 132;
pub const INVALID_MEMORY_POOL: u32 = 133;
pub const RECEIVE_LIST_BROKEN: u32 = 258;
pub const OUT_OF_ADDRESS_SPACE: u32 = 259;
pub const MESSAGE_TOO_LARGE: u32 = 260;
pub const INVALID_PROCESS_ID: u32 = 517;
pub const INVALID_THREAD_ID: u32 = 518;
pub const INVALID_ID: u32 = 519;
pub const PROCESS_TERMINATED: u32 = 520;

/// The svc-module error with the given description.
pub fn error(description: u32) -> (e: NxError)
    ensures
        e@ == super::error_bits(MODULE_CODE, description),
        super::module_of(e@) == MODULE_CODE,
        super::description_of(e@) == description & 0x1FFF,
{
    proof {
        assert(1u32 & 0x1FF == 1) by (bit_vector);
        super::lemma_parts_round_trip(MODULE_CODE, description);
    }
    match NxError::from_parts(MODULE_CODE, description) {
        Some(e) => e,
        None => {
            assert(false);
            NxError::new_raw_unchecked(MODULE_CODE)
        },
    }
}

/// The raw codes of the errors a thread wait can end with.
pub proof fn lemma_wait_codes()
    ensures
        super::error_bits(MODULE_CODE, CANCELLED) == 0xEC01,
        super::error_bits(MODULE_CODE, TERMINATION_REQUESTED) == 0x7601,
        super::error_bits(MODULE_CODE, TIMED_OUT) == 0xEA01,
        super::error_bits(MODULE_CODE, NOT_FOUND) == 0xF201,
{
    assert(super::error_bits(1, 118) == 0xEC01) by (bit_vector);
    assert(super::error_bits(1, 59) == 0x7601) by (bit_vector);
    assert(super::error_bits(1, 117) == 0xEA01) by (bit_vector);
    assert(super::error_bits(1, 121) == 0xF201) by (bit_vector);
}

/// Whether `e` is the svc-module error with the given description.
pub fn is(e: NxError, description: u32) -> (r: bool)
    ensures
        r <==> e@ == super::error_bits(MODULE_CODE, description),
{
    e.into_raw() == ((MODULE_CODE & 0x1FF) | ((description << 9u32) & 0x3FFE00))
}

} // verus!
