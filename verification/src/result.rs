//! Result codes of the kernel.
//!
//! An error code packs a module number into bits 0..9 and a description into
//! bits 9..22; bits 22..32 are reserved and always clear. A code whose module
//! part is zero denotes success, so an error always has a non-zero module.

pub mod svc;

use vstd::prelude::*;

verus! {

/// Bits of an error code that hold the module number.
pub const MODULE_MASK: u32 = 0x000001FF;

/// Bits of an error code that hold the description.
pub const DESCRIPTION_MASK: u32 = 0x003FFE00;

/// Position of the lowest description bit.
pub const DESCRIPTION_SHIFT: u32 = 9;

/// Bits of an error code that are reserved.
pub const RESERVED_MASK: u32 = 0xFFC00000;

/// The module part of a raw error code.
pub open spec fn module_of(raw: u32) -> u32 {
    raw & 0x1FF
}

/// The description part of a raw error code.
pub open spec fn description_of(raw: u32) -> u32 {
    (raw & 0x3FFE00) >> 9
}

/// The raw code that `NxError::from_parts` builds from a module and a description.
pub open spec fn error_bits(module: u32, desc: u32) -> u32 {
    (module & 0x1FF) | ((desc << 9u32) & 0x3FFE00)
}

/// Whether a raw value is a well-formed error code: a non-zero module and no
/// reserved bit set.
pub open spec fn is_error_code(raw: u32) -> bool {
    raw & 0x1FF != 0 && raw & 0xFFC00000 == 0
}

/// A kernel error code.
#[derive(Debug, Copy, Clone, PartialEq, Eq, Structural)]
pub struct NxError {
    raw: u32,
}

impl View for NxError {
    type V = u32;

    closed spec fn view(&self) -> u32 {
        self.raw
    }
}

/// The outcome of an operation that yields a value or a kernel error.
pub type NxResult<T> = Result<T, NxError>;

/// The raw outcome of a kernel call: success, or an error code.
pub enum NxResultCode {
    Success,
    Error(NxError),
}

impl NxResultCode {
    /// The outcome of a kernel call from the raw code it returned: a code
    /// whose module part is zero is success, any other is an error (with its
    /// reserved bits cleared).
    pub fn from_raw(raw: u32) -> (r: Self)
        ensures
            raw & 0x1FF == 0 ==> r is Success,
            raw & 0x1FF != 0 ==> r is Error && r->Error_0@ == raw & !0xFFC00000u32,
    {
        if raw & MODULE_MASK == 0 {
            NxResultCode::Success
        } else {
            NxResultCode::Error(NxError::new_raw_unchecked(raw))
        }
    }

    /// On success, runs `f` and returns its value; on an error, returns the error.
    pub fn then<T, F: FnOnce() -> T>(self, f: F) -> (r: NxResult<T>)
        requires
            self is Success ==> f.requires(()),
        ensures
            then_outcome(self, f, r),
    {
        match self {
            NxResultCode::Success => Ok(f()),
            NxResultCode::Error(e) => Err(e),
        }
    }

    /// On success, returns `item`; on an error, returns the error.
    pub fn then_ok<T>(self, item: T) -> (r: NxResult<T>)
        ensures
            r == then_ok_spec(self, item),
    {
        match self {
            NxResultCode::Success => Ok(item),
            NxResultCode::Error(e) => Err(e),
        }
    }
}

/// What `then` may return for `code` and `f`: on success, a value that `f`
/// may return; on an error, that error.
pub open spec fn then_outcome<T, F: FnOnce() -> T>(code: NxResultCode, f: F, r: NxResult<T>) -> bool {
    match code {
        NxResultCode::Success => r is Ok && f.ensures((), r->Ok_0),
        NxResultCode::Error(e) => r == Err::<T, NxError>(e),
    }
}

/// What `then_ok` returns for `code` and `item`.
pub open spec fn then_ok_spec<T>(code: NxResultCode, item: T) -> NxResult<T> {
    match code {
        NxResultCode::Success => Ok(item),
        NxResultCode::Error(e) => Err(e),
    }
}

/// `then_ok(item)` is `then` with a closure that returns `item`: whatever
/// `then` returns for such a closure is what `then_ok` returns.
pub proof fn lemma_then_ok_is_then<T, F: FnOnce() -> T>(code: NxResultCode, item: T, f: F, r: NxResult<T>)
    requires
        forall|v: T| f.ensures((), v) ==> v == item,
        then_outcome(code, f, r),
    ensures
        r == then_ok_spec(code, item),
{
    if code is Success {
        assert(f.ensures((), r->Ok_0));
    }
}

impl NxError {
    #[verifier::type_invariant]
    spec fn inv(self) -> bool {
        is_error_code(self.raw)
    }

    /// Builds an error from a module number and a description.
    ///
    /// Only the low 9 bits of `module` and the low 13 bits of `desc` are kept;
    /// the result is `None` when the kept module bits are all zero.
    pub fn from_parts(module: u32, desc: u32) -> (r: Option<Self>)
        ensures
            r is Some <==> module & 0x1FF != 0,
            r is Some ==> r->0@ == error_bits(module, desc),
    {
        let mut inner = 0u32;
        inner = inner | (module & MODULE_MASK);
        inner = inner | ((desc << DESCRIPTION_SHIFT) & DESCRIPTION_MASK);
        assert(inner == error_bits(module, desc)) by (bit_vector)
            requires
                inner == (0u32 | (module & 0x1FF)) | ((desc << 9u32) & 0x3FFE00),
        ;
        assert(error_bits(module, desc) & 0x1FF == module & 0x1FF) by (bit_vector);
        assert(error_bits(module, desc) & !0xFFC00000u32 == error_bits(module, desc))
            by (bit_vector);
        Self::new_raw(inner)
    }

    /// Builds an error from a raw code, clearing the reserved bits.
    ///
    /// The result is `None` when the module part of `error` is zero.
    pub fn new_raw(error: u32) -> (r: Option<Self>)
        ensures
            r is Some <==> error & 0x1FF != 0,
            r is Some ==> r->0@ == error & !0xFFC00000u32,
    {
        if (error & MODULE_MASK) != 0 {
            assert((error & !0xFFC00000u32) & 0x1FF == error & 0x1FF) by (bit_vector);
            assert((error & !0xFFC00000u32) & !0xFFC00000u32 == error & !0xFFC00000u32)
                by (bit_vector);
            Some(Self::new_raw_unchecked(error & !RESERVED_MASK))
        } else {
            None
        }
    }

    /// Builds an error from a raw code whose module part is non-zero,
    /// clearing the reserved bits.
    pub fn new_raw_unchecked(error: u32) -> (r: Self)
        requires
            error & 0x1FF != 0,
        ensures
            r@ == error & !0xFFC00000u32,
    {
        let raw = error & !RESERVED_MASK;
        assert(is_error_code(raw)) by (bit_vector)
            requires
                raw == error & !0xFFC00000u32,
                error & 0x1FF != 0,
        ;
        NxError { raw }
    }

    /// The raw code of this error.
    pub fn into_raw(self) -> (r: u32)
        ensures
            r == self@,
            is_error_code(r),
    {
        proof {
            use_type_invariant(&self);
        }
        self.raw
    }

    /// The module part of this error, which is never zero.
    pub fn module(&self) -> (r: u32)
        ensures
            r == module_of(self@),
            r != 0,
    {
        proof {
            use_type_invariant(self);
        }
        self.raw & MODULE_MASK
    }

    /// The description part of this error.
    pub fn description(&self) -> (r: u32)
        ensures
            r == description_of(self@),
    {
        (self.raw & DESCRIPTION_MASK) >> DESCRIPTION_SHIFT
    }
}

/// Building an error from parts keeps exactly the low 9 bits of the module
/// and the low 13 bits of the description.
pub proof fn lemma_parts_round_trip(module: u32, desc: u32)
    requires
        module & 0x1FF != 0,
    ensures
        is_error_code(error_bits(module, desc)),
        module_of(error_bits(module, desc)) == module & 0x1FF,
        description_of(error_bits(module, desc)) == desc & 0x1FFF,
{
    assert(is_error_code(error_bits(module, desc))) by (bit_vector)
        requires
            module & 0x1FF != 0,
    ;
    assert(module_of(error_bits(module, desc)) == module & 0x1FF) by (bit_vector);
    assert(description_of(error_bits(module, desc)) == desc & 0x1FFF) by (bit_vector);
}

/// Every well-formed error code is rebuilt exactly from its module and its
/// description.
pub proof fn lemma_code_round_trip(raw: u32)
    requires
        is_error_code(raw),
    ensures
        error_bits(module_of(raw), description_of(raw)) == raw,
{
    assert(error_bits(module_of(raw), description_of(raw)) == raw) by (bit_vector)
        requires
            raw & 0x1FF != 0 && raw & 0xFFC00000 == 0,
    ;
}

} // verus!
