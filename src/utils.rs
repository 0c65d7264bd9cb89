use vstd::prelude::*;

use crate::constants::{
    mfxStatus, MFX_ERR_ABORTED, MFX_ERR_INVALID_HANDLE, MFX_ERR_INVALID_VIDEO_PARAM,
    MFX_ERR_MEMORY_ALLOC, MFX_ERR_MORE_DATA, MFX_ERR_NONE, MFX_ERR_NOT_ENOUGH_BUFFER,
    MFX_ERR_NOT_FOUND, MFX_ERR_NULL_PTR, MFX_ERR_UNDEFINED_BEHAVIOR, MFX_ERR_UNKNOWN,
    MFX_ERR_UNSUPPORTED, MFX_WRN_INCOMPATIBLE_VIDEO_PARAM, MFX_WRN_IN_EXECUTION,
    MFX_WRN_PARTIAL_ACCELERATION,
};

verus! {

/// What a status other than success stands for.
#[derive(Clone, Copy, Debug, PartialEq, Eq, Structural)]
pub enum StatusError {
    Unknown,
    NullPtr,
    Unsupported,
    MemoryAlloc,
    NotEnoughBuffer,
    InvalidHandle,
    NotFound,
    MoreData,
    Aborted,
    InvalidVideoParam,
    UndefinedBehavior,
    InExecution,
    PartialAcceleration,
    IncompatibleVideoParam,
    /// A code without a name of its own.
    Other(i32),
}

/// The error that a status code other than success stands for.
pub open spec fn error_of(status: i32) -> StatusError {
    if status == MFX_ERR_UNKNOWN {
        StatusError::Unknown
    } else if status == MFX_ERR_NULL_PTR {
        StatusError::NullPtr
    } else if status == MFX_ERR_UNSUPPORTED {
        StatusError::Unsupported
    } else if status == MFX_ERR_MEMORY_ALLOC {
        StatusError::MemoryAlloc
    } else if status == MFX_ERR_NOT_ENOUGH_BUFFER {
        StatusError::NotEnoughBuffer
    } else if status == MFX_ERR_INVALID_HANDLE {
        StatusError::InvalidHandle
    } else if status == MFX_ERR_NOT_FOUND {
        StatusError::NotFound
    } else if status == MFX_ERR_MORE_DATA {
        StatusError::MoreData
    } else if status == MFX_ERR_ABORTED {
        StatusError::Aborted
    } else if status == MFX_ERR_INVALID_VIDEO_PARAM {
        StatusError::InvalidVideoParam
    } else if status == MFX_ERR_UNDEFINED_BEHAVIOR {
        StatusError::UndefinedBehavior
    } else if status == MFX_WRN_IN_EXECUTION {
        StatusError::InExecution
    } else if status == MFX_WRN_PARTIAL_ACCELERATION {
        StatusError::PartialAcceleration
    } else if status == MFX_WRN_INCOMPATIBLE_VIDEO_PARAM {
        StatusError::IncompatibleVideoParam
    } else {
        StatusError::Other(status)
    }
}

/// The status code that an error stands for.
pub open spec fn code_of(e: StatusError) -> i32 {
    match e {
        StatusError::Unknown => MFX_ERR_UNKNOWN,
        StatusError::NullPtr => MFX_ERR_NULL_PTR,
        StatusError::Unsupported => MFX_ERR_UNSUPPORTED,
        StatusError::MemoryAlloc => MFX_ERR_MEMORY_ALLOC,
        StatusError::NotEnoughBuffer => MFX_ERR_NOT_ENOUGH_BUFFER,
        StatusError::InvalidHandle => MFX_ERR_INVALID_HANDLE,
        StatusError::NotFound => MFX_ERR_NOT_FOUND,
        StatusError::MoreData => MFX_ERR_MORE_DATA,
        StatusError::Aborted => MFX_ERR_ABORTED,
        StatusError::InvalidVideoParam => MFX_ERR_INVALID_VIDEO_PARAM,
        StatusError::UndefinedBehavior => MFX_ERR_UNDEFINED_BEHAVIOR,
        StatusError::InExecution => MFX_WRN_IN_EXECUTION,
        StatusError::PartialAcceleration => MFX_WRN_PARTIAL_ACCELERATION,
        StatusError::IncompatibleVideoParam => MFX_WRN_INCOMPATIBLE_VIDEO_PARAM,
        StatusError::Other(c) => c,
    }
}

impl StatusError {
    /// The status code of this error.
    pub fn code(&self) -> (r: i32)
        ensures
            r == code_of(*self),
    {
        match self {
            StatusError::Unknown => MFX_ERR_UNKNOWN,
            StatusError::NullPtr => MFX_ERR_NULL_PTR,
            StatusError::Unsupported => MFX_ERR_UNSUPPORTED,
            StatusError::MemoryAlloc => MFX_ERR_MEMORY_ALLOC,
            StatusError::NotEnoughBuffer => MFX_ERR_NOT_ENOUGH_BUFFER,
            StatusError::InvalidHandle => MFX_ERR_INVALID_HANDLE,
            StatusError::NotFound => MFX_ERR_NOT_FOUND,
            StatusError::MoreData => MFX_ERR_MORE_DATA,
            StatusError::Aborted => MFX_ERR_ABORTED,
            StatusError::InvalidVideoParam => MFX_ERR_INVALID_VIDEO_PARAM,
            StatusError::UndefinedBehavior => MFX_ERR_UNDEFINED_BEHAVIOR,
            StatusError::InExecution => MFX_WRN_IN_EXECUTION,
            StatusError::PartialAcceleration => MFX_WRN_PARTIAL_ACCELERATION,
            StatusError::IncompatibleVideoParam => MFX_WRN_INCOMPATIBLE_VIDEO_PARAM,
            StatusError::Other(c) => *c,
        }
    }

    /// A short description of the error.
    pub fn message(&self) -> (r: &'static str)
        ensures
            r@ == message_of(*self)@,
    {
        match self {
            StatusError::Unknown => "unknown",
            StatusError::NullPtr => "null pointer",
            StatusError::Unsupported => "unsupported",
            StatusError::MemoryAlloc => "memory allocation failed",
            StatusError::NotEnoughBuffer => "not enough buffer",
            StatusError::InvalidHandle => "invalid handle",
            StatusError::NotFound => "not found",
            StatusError::MoreData => "more data",
            StatusError::Aborted => "aborted",
            StatusError::InvalidVideoParam => "invalid video param",
            StatusError::UndefinedBehavior => "undefined behavior",
            StatusError::InExecution => "in execution",
            StatusError::PartialAcceleration => "partial acceleration",
            StatusError::IncompatibleVideoParam => "incompatible video param",
            StatusError::Other(_) => "unknown status",
        }
    }
}

/// The description of each error.
pub open spec fn message_of(e: StatusError) -> &'static str {
    match e {
        StatusError::Unknown => "unknown",
        StatusError::NullPtr => "null pointer",
        StatusError::Unsupported => "unsupported",
        StatusError::MemoryAlloc => "memory allocation failed",
        StatusError::NotEnoughBuffer => "not enough buffer",
        StatusError::InvalidHandle => "invalid handle",
        StatusError::NotFound => "not found",
        StatusError::MoreData => "more data",
        StatusError::Aborted => "aborted",
        StatusError::InvalidVideoParam => "invalid video param",
        StatusError::UndefinedBehavior => "undefined behavior",
        StatusError::InExecution => "in execution",
        StatusError::PartialAcceleration => "partial acceleration",
        StatusError::IncompatibleVideoParam => "incompatible video param",
        StatusError::Other(_) => "unknown status",
    }
}

/// Classifies a status: success, or the error that it stands for.
pub fn check_error(status: mfxStatus) -> (r: Result<(), StatusError>)
    ensures
        status == MFX_ERR_NONE <==> r is Ok,
        r matches Err(e) ==> e == error_of(status) && code_of(e) == status,
{
    if status == MFX_ERR_NONE {
        Ok(())
    } else if status == MFX_ERR_UNKNOWN {
        Err(StatusError::Unknown)
    } else if status == MFX_ERR_NULL_PTR {
        Err(StatusError::NullPtr)
    } else if status == MFX_ERR_UNSUPPORTED {
        Err(StatusError::Unsupported)
    } else if status == MFX_ERR_MEMORY_ALLOC {
        Err(StatusError::MemoryAlloc)
    } else if status == MFX_ERR_NOT_ENOUGH_BUFFER {
        Err(StatusError::NotEnoughBuffer)
    } else if status == MFX_ERR_INVALID_HANDLE {
        Err(StatusError::InvalidHandle)
    } else if status == MFX_ERR_NOT_FOUND {
        Err(StatusError::NotFound)
    } else if status == MFX_ERR_MORE_DATA {
        Err(StatusError::MoreData)
    } else if status == MFX_ERR_ABORTED {
        Err(StatusError::Aborted)
    } else if status == MFX_ERR_INVALID_VIDEO_PARAM {
        Err(StatusError::InvalidVideoParam)
    } else if status == MFX_ERR_UNDEFINED_BEHAVIOR {
        Err(StatusError::UndefinedBehavior)
    } else if status == MFX_WRN_IN_EXECUTION {
        Err(StatusError::InExecution)
    } else if status == MFX_WRN_PARTIAL_ACCELERATION {
        Err(StatusError::PartialAcceleration)
    } else if status == MFX_WRN_INCOMPATIBLE_VIDEO_PARAM {
        Err(StatusError::IncompatibleVideoParam)
    } else {
        Err(StatusError::Other(status))
    }
}

/// A fatal status, with what was being done when it came.
#[derive(Clone, Copy, Debug)]
pub struct Failure {
    pub context: &'static str,
    pub error: StatusError,
}

/// Accepts success and warnings; turns an error status into a failure that
/// names `msg` as its context.
pub fn assert_error_msg(status: mfxStatus, msg: &'static str) -> (r: Result<(), Failure>)
    ensures
        status >= 0 <==> r is Ok,
        r matches Err(f) ==> f.context == msg && f.error == error_of(status),
{
    if status < 0 {
        match check_error(status) {
            Ok(()) => Ok(()),
            Err(error) => Err(Failure { context: msg, error }),
        }
    } else {
        Ok(())
    }
}

/// `x` rounded up to the next multiple of `a`.
pub open spec fn align_up(x: int, a: int) -> int
    recommends
        a > 0,
{
    ((x + a - 1) / a) * a
}

proof fn lemma_align_up(x: int, a: int)
    requires
        x >= 0,
        a > 0,
    ensures
        align_up(x, a) >= x,
        align_up(x, a) < x + a,
        align_up(x, a) % a == 0,
        align_up(align_up(x, a), a) == align_up(x, a),
{
    let q = (x + a - 1) / a;
    vstd::arithmetic::div_mod::lemma_fundamental_div_mod(x + a - 1, a);
    vstd::arithmetic::div_mod::lemma_mod_multiples_basic(q, a);
    vstd::arithmetic::div_mod::lemma_div_multiples_vanish_fancy(q, a - 1, a);
    assert(q * a + a - 1 == a * q + (a - 1)) by (nonlinear_arith);
}

/// A positive value rounds up to at least `a`.
pub proof fn lemma_align_up_positive(x: int, a: int)
    requires
        x > 0,
        a > 0,
    ensures
        a <= align_up(x, a) <= x + a - 1,
        align_up(x, a) == ((x + a - 1) / a) * a,
{
    lemma_align_up(x, a);
    vstd::arithmetic::div_mod::lemma_div_is_ordered(a, x + a - 1, a);
    vstd::arithmetic::div_mod::lemma_div_by_self(a);
    vstd::arithmetic::mul::lemma_mul_inequality(1, (x + a - 1) / a, a);
}

/// Rounding up to 16 never decreases a value, always yields a multiple of 16,
/// and leaves a multiple of 16 as it is.
pub proof fn lemma_align16_laws(x: nat)
    ensures
        align_up(x as int, 16) >= x,
        align_up(x as int, 16) % 16 == 0,
        align_up(align_up(x as int, 16), 16) == align_up(x as int, 16),
{
    lemma_align_up(x as int, 16);
}

/// Rounding up to 32 never decreases a value, always yields a multiple of 32,
/// and leaves a multiple of 32 as it is.
pub proof fn lemma_align32_laws(x: nat)
    ensures
        align_up(x as int, 32) >= x,
        align_up(x as int, 32) % 32 == 0,
        align_up(align_up(x as int, 32), 32) == align_up(x as int, 32),
{
    lemma_align_up(x as int, 32);
}

/// Rounds `x` up to a multiple of 16.
pub fn align16(x: u16) -> (r: u16)
    requires
        x <= 65520,
    ensures
        r == align_up(x as int, 16),
{
    let y: u16 = x + 15;
    let r: u16 = (y >> 4) << 4;
    assert((y >> 4) << 4 == (y / 16) * 16) by (bit_vector);
    r
}

/// Rounds `x` up to a multiple of 32.
pub fn align32(x: u32) -> (r: u32)
    requires
        x <= 0xffff_ffe0,
    ensures
        r == align_up(x as int, 32),
{
    let y: u32 = x + 31;
    let r: u32 = y & !31u32;
    assert(y & !31u32 == (y / 32) * 32) by (bit_vector);
    r
}

} // verus!
