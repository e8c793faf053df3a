//! Errors raised by this library and the error type of its results.
use vstd::prelude::*;

use crate::mg_error::MgError;
use crate::status::{decimal, LVStatusCode};

verus! {

/// The first code of the range kept for errors that this library raises
/// itself, apart from the host's own catalog.
pub const INTERNAL_ERROR_BASE: i32 = 542000;

/// Failures that this library detects itself.
#[derive(Debug, Clone, PartialEq)]
pub enum InternalError {
    /// A general failure without a more precise kind.
    Misc,
    /// The host's entry points could not be bound; the text says why.
    NoLabviewApi(String),
    /// A handle or pointer was null or unknown where a valid one is needed.
    InvalidHandle,
    /// A dimension does not fit the host's signed 32-bit dimension type.
    ArrayDimensionsOutOfRange,
    /// A list of dimensions does not have the arity that was asked for.
    ArrayDimensionMismatch,
    /// The host's memory manager did not hand out a new block.
    HandleCreationFailed,
    /// A status code is success or outside the host's catalog.
    InvalidMgErrorCode,
}

/// The index of each internal error within the reserved range.
pub open spec fn internal_index(e: InternalError) -> int {
    match e {
        InternalError::Misc => 0,
        InternalError::NoLabviewApi(_) => 1,
        InternalError::InvalidHandle => 2,
        InternalError::ArrayDimensionsOutOfRange => 3,
        InternalError::ArrayDimensionMismatch => 4,
        InternalError::HandleCreationFailed => 5,
        InternalError::InvalidMgErrorCode => 6,
    }
}

/// The status code of an internal error.
pub open spec fn internal_code(e: InternalError) -> int {
    INTERNAL_ERROR_BASE + internal_index(e)
}

/// True of the codes of the reserved range that name an internal error.
pub open spec fn internal_code_assigned(code: i32) -> bool {
    INTERNAL_ERROR_BASE <= code <= INTERNAL_ERROR_BASE + 6
}

impl InternalError {
    /// The status code of this error.
    pub fn status(&self) -> (r: LVStatusCode)
        ensures
            r.0 == internal_code(*self),
    {
        let index: i32 = match self {
            InternalError::Misc => 0,
            InternalError::NoLabviewApi(_) => 1,
            InternalError::InvalidHandle => 2,
            InternalError::ArrayDimensionsOutOfRange => 3,
            InternalError::ArrayDimensionMismatch => 4,
            InternalError::HandleCreationFailed => 5,
            InternalError::InvalidMgErrorCode => 6,
        };
        LVStatusCode(INTERNAL_ERROR_BASE + index)
    }

    /// The internal error that a status code of the reserved range names,
    /// or `None` for any other code. An error that carries a text gets an
    /// empty one.
    pub fn from_status(status: LVStatusCode) -> (r: Option<InternalError>)
        ensures
            r is Some <==> internal_code_assigned(status.0),
            r matches Some(e) ==> internal_code(e) == status.0,
            r matches Some(InternalError::NoLabviewApi(text)) ==> text@.len() == 0,
    {
        let code = status.0;
        if code == INTERNAL_ERROR_BASE {
            Some(InternalError::Misc)
        } else if code == INTERNAL_ERROR_BASE + 1 {
            Some(InternalError::NoLabviewApi(String::new()))
        } else if code == INTERNAL_ERROR_BASE + 2 {
            Some(InternalError::InvalidHandle)
        } else if code == INTERNAL_ERROR_BASE + 3 {
            Some(InternalError::ArrayDimensionsOutOfRange)
        } else if code == INTERNAL_ERROR_BASE + 4 {
            Some(InternalError::ArrayDimensionMismatch)
        } else if code == INTERNAL_ERROR_BASE + 5 {
            Some(InternalError::HandleCreationFailed)
        } else if code == INTERNAL_ERROR_BASE + 6 {
            Some(InternalError::InvalidMgErrorCode)
        } else {
            None
        }
    }

    /// The text of this error.
    pub fn description(&self) -> (r: String)
        ensures
            r@ == internal_description(*self),
    {
        match self {
            InternalError::Misc => String::from_str(
                "LabVIEW Interop General Error. Probably because of a missing implementation.",
            ),
            InternalError::NoLabviewApi(source) => {
                let text = String::from_str(
                    "LabVIEW API unavailable. Probably because it isn't being run in LabVIEW. Source Error: ",
                );
                text.concat(source.as_str())
            },
            InternalError::InvalidHandle => String::from_str(
                "Invalid handle when valid handle is required",
            ),
            InternalError::ArrayDimensionsOutOfRange => String::from_str(
                "LabVIEW arrays can only have dimensions of i32 range.",
            ),
            InternalError::ArrayDimensionMismatch => String::from_str(
                "Array dimensions don't match. You may require the link feature to enable auto-resizing.",
            ),
            InternalError::HandleCreationFailed => String::from_str(
                "Creating of handle in LabVIEW memory manager failed. Perhaps you are out of memory?",
            ),
            InternalError::InvalidMgErrorCode => String::from_str(
                "Invalid numeric status code for conversion into enumerated error code",
            ),
        }
    }
}

/// The text of an internal error.
pub open spec fn internal_description(e: InternalError) -> Seq<char> {
    match e {
        InternalError::Misc => "LabVIEW Interop General Error. Probably because of a missing implementation."@,
        InternalError::NoLabviewApi(source) =>
            "LabVIEW API unavailable. Probably because it isn't being run in LabVIEW. Source Error: "@
                + source@,
        InternalError::InvalidHandle => "Invalid handle when valid handle is required"@,
        InternalError::ArrayDimensionsOutOfRange =>
            "LabVIEW arrays can only have dimensions of i32 range."@,
        InternalError::ArrayDimensionMismatch =>
            "Array dimensions don't match. You may require the link feature to enable auto-resizing."@,
        InternalError::HandleCreationFailed =>
            "Creating of handle in LabVIEW memory manager failed. Perhaps you are out of memory?"@,
        InternalError::InvalidMgErrorCode =>
            "Invalid numeric status code for conversion into enumerated error code"@,
    }
}

impl From<InternalError> for LVStatusCode {
    fn from(e: InternalError) -> (r: LVStatusCode) {
        e.status()
    }
}

impl vstd::std_specs::convert::FromSpecImpl<InternalError> for LVStatusCode {
    open spec fn obeys_from_spec() -> bool {
        true
    }

    open spec fn from_spec(e: InternalError) -> LVStatusCode {
        LVStatusCode(internal_code(e) as i32)
    }
}

impl From<MgError> for LVStatusCode {
    fn from(e: MgError) -> (r: LVStatusCode) {
        LVStatusCode(e.code())
    }
}

impl vstd::std_specs::convert::FromSpecImpl<MgError> for LVStatusCode {
    open spec fn obeys_from_spec() -> bool {
        true
    }

    open spec fn from_spec(e: MgError) -> LVStatusCode {
        LVStatusCode(e.spec_code())
    }
}

/// Every error that an operation of this library can end in.
#[derive(Debug, Clone, PartialEq)]
pub enum LVInteropError {
    /// An error of the host's memory-manager catalog.
    LabviewMgError(MgError),
    /// An error that this library detected itself.
    InternalError(InternalError),
    /// A host status code outside the catalog, carried as it came.
    LabviewError(LVStatusCode),
}

/// The result of an operation of this library.
pub type Result<T> = core::result::Result<T, LVInteropError>;

/// The status code that stands for an error at the host's boundary.
pub open spec fn error_code(e: LVInteropError) -> int {
    match e {
        LVInteropError::LabviewMgError(m) => m.spec_code() as int,
        LVInteropError::InternalError(i) => internal_code(i),
        LVInteropError::LabviewError(s) => s.0 as int,
    }
}

impl LVInteropError {
    /// The status code that stands for this error at the host's boundary.
    pub fn status(&self) -> (r: LVStatusCode)
        ensures
            r.0 == error_code(*self),
    {
        match self {
            LVInteropError::LabviewMgError(m) => LVStatusCode(m.code()),
            LVInteropError::InternalError(i) => i.status(),
            LVInteropError::LabviewError(s) => *s,
        }
    }
}

/// The text of an error.
pub open spec fn interop_description(e: LVInteropError) -> Seq<char> {
    match e {
        LVInteropError::LabviewMgError(m) => "Internal LabVIEW Manager Error: "@ + m.spec_description(),
        LVInteropError::InternalError(i) => "Internal Error: "@ + internal_description(i),
        LVInteropError::LabviewError(s) => "LabVIEW Error: "@ + "LVStatusCode: "@ + decimal(
            s.0 as int,
        ),
    }
}

/// The text of the error that an error wraps, empty where it wraps none.
pub open spec fn interop_source(e: LVInteropError) -> Seq<char> {
    match e {
        LVInteropError::LabviewMgError(m) => m.spec_description(),
        LVInteropError::InternalError(i) => internal_description(i),
        LVInteropError::LabviewError(_) => Seq::empty(),
    }
}

impl LVInteropError {
    /// The text of this error.
    pub fn description(&self) -> (r: String)
        ensures
            r@ == interop_description(*self),
    {
        match self {
            LVInteropError::LabviewMgError(m) => {
                let text = String::from_str("Internal LabVIEW Manager Error: ");
                text.concat(m.description())
            },
            LVInteropError::InternalError(i) => {
                let text = String::from_str("Internal Error: ");
                let inner = i.description();
                text.concat(inner.as_str())
            },
            LVInteropError::LabviewError(s) => {
                let text = String::from_str("LabVIEW Error: ");
                let inner = s.text();
                text.concat(inner.as_str())
            },
        }
    }

    /// The text of the error that this error wraps, empty where it wraps
    /// none.
    pub fn source(&self) -> (r: String)
        ensures
            r@ == interop_source(*self),
    {
        match self {
            LVInteropError::LabviewMgError(m) => String::from_str(m.description()),
            LVInteropError::InternalError(i) => i.description(),
            LVInteropError::LabviewError(_) => String::new(),
        }
    }
}

impl From<LVInteropError> for LVStatusCode {
    fn from(e: LVInteropError) -> (r: LVStatusCode) {
        e.status()
    }
}

impl vstd::std_specs::convert::FromSpecImpl<LVInteropError> for LVStatusCode {
    open spec fn obeys_from_spec() -> bool {
        true
    }

    open spec fn from_spec(e: LVInteropError) -> LVStatusCode {
        LVStatusCode(error_code(e) as i32)
    }
}

impl From<MgError> for LVInteropError {
    fn from(e: MgError) -> (r: LVInteropError) {
        LVInteropError::LabviewMgError(e)
    }
}

impl vstd::std_specs::convert::FromSpecImpl<MgError> for LVInteropError {
    open spec fn obeys_from_spec() -> bool {
        true
    }

    open spec fn from_spec(e: MgError) -> LVInteropError {
        LVInteropError::LabviewMgError(e)
    }
}

impl From<InternalError> for LVInteropError {
    fn from(e: InternalError) -> (r: LVInteropError) {
        LVInteropError::InternalError(e)
    }
}

impl vstd::std_specs::convert::FromSpecImpl<InternalError> for LVInteropError {
    open spec fn obeys_from_spec() -> bool {
        true
    }

    open spec fn from_spec(e: InternalError) -> LVInteropError {
        LVInteropError::InternalError(e)
    }
}

impl From<LVStatusCode> for LVInteropError {
    fn from(status: LVStatusCode) -> (r: LVInteropError) {
        LVInteropError::LabviewError(status)
    }
}

impl vstd::std_specs::convert::FromSpecImpl<LVStatusCode> for LVInteropError {
    open spec fn obeys_from_spec() -> bool {
        true
    }

    open spec fn from_spec(status: LVStatusCode) -> LVInteropError {
        LVInteropError::LabviewError(status)
    }
}

impl<T> From<Result<T>> for LVStatusCode {
    fn from(value: Result<T>) -> (r: LVStatusCode) {
        match value {
            Ok(_) => LVStatusCode(0),
            Err(e) => e.status(),
        }
    }
}

impl<T> vstd::std_specs::convert::FromSpecImpl<Result<T>> for LVStatusCode {
    open spec fn obeys_from_spec() -> bool {
        true
    }

    open spec fn from_spec(value: Result<T>) -> LVStatusCode {
        match value {
            Ok(_) => LVStatusCode(0),
            Err(e) => LVStatusCode(error_code(e) as i32),
        }
    }
}

/// The error that a status code other than success converts to: the
/// catalog's error where the catalog holds the code, else the code itself.
pub open spec fn specific_error(status: LVStatusCode) -> LVInteropError {
    match MgError::spec_from_code(status.0) {
        Some(m) => LVInteropError::LabviewMgError(m),
        None => LVInteropError::LabviewError(status),
    }
}

impl TryFrom<LVStatusCode> for MgError {
    type Error = LVInteropError;

    fn try_from(status: LVStatusCode) -> (r: core::result::Result<MgError, LVInteropError>) {
        if status.0 == 0 {
            return Err(LVInteropError::InternalError(InternalError::InvalidMgErrorCode));
        }
        match MgError::from_code(status.0) {
            Some(code) => Ok(code),
            None => Err(LVInteropError::InternalError(InternalError::InvalidMgErrorCode)),
        }
    }
}

impl vstd::std_specs::convert::TryFromSpecImpl<LVStatusCode> for MgError {
    open spec fn obeys_try_from_spec() -> bool {
        true
    }

    open spec fn try_from_spec(status: LVStatusCode) -> core::result::Result<MgError, LVInteropError> {
        match MgError::spec_from_code(status.0) {
            Some(m) => Ok(m),
            None => Err(LVInteropError::InternalError(InternalError::InvalidMgErrorCode)),
        }
    }
}

} // verus!

verus! {

/// A status code of the reserved range that names an internal error
/// converts to an error, and every error it may convert to converts back to
/// the same code.
pub proof fn lemma_internal_code_round_trip(status: LVStatusCode)
    requires
        status.0 != 0,
        internal_code_assigned(status.0),
    ensures
        exists|e: InternalError| internal_code(e) == status.0,
        forall|e: InternalError|
            #[trigger] internal_code(e) == status.0 ==> LVStatusCode(internal_code(e) as i32)
                == status,
{
    let code = status.0;
    if code == INTERNAL_ERROR_BASE {
        assert(internal_code(InternalError::Misc) == code);
    } else if code == INTERNAL_ERROR_BASE + 1 {
        assert(internal_code(InternalError::NoLabviewApi(arbitrary())) == code);
    } else if code == INTERNAL_ERROR_BASE + 2 {
        assert(internal_code(InternalError::InvalidHandle) == code);
    } else if code == INTERNAL_ERROR_BASE + 3 {
        assert(internal_code(InternalError::ArrayDimensionsOutOfRange) == code);
    } else if code == INTERNAL_ERROR_BASE + 4 {
        assert(internal_code(InternalError::ArrayDimensionMismatch) == code);
    } else if code == INTERNAL_ERROR_BASE + 5 {
        assert(internal_code(InternalError::HandleCreationFailed) == code);
    } else {
        assert(internal_code(InternalError::InvalidMgErrorCode) == code);
    }
}

/// Distinct kinds of internal error have distinct status codes, all of them
/// inside the reserved range.
pub proof fn lemma_internal_code_injective(a: InternalError, b: InternalError)
    ensures
        internal_code_assigned(internal_code(a) as i32),
        internal_code(a) == internal_code(b) <==> internal_index(a) == internal_index(b),
{
}

/// A code of the host's catalog converts to its named error and back to the
/// same code; success and codes outside the catalog do not convert.
pub proof fn lemma_catalog_round_trip(code: i32)
    ensures
        MgError::spec_from_code(code) matches Some(m) ==> m.spec_code() == code,
        code == 0 ==> MgError::spec_from_code(code) is None,
{
}

/// Every error of the host's catalog has a non-zero code that converts back
/// to it.
pub proof fn lemma_catalog_code_round_trip(m: MgError)
    ensures
        m.spec_code() != 0,
        MgError::spec_from_code(m.spec_code()) == Some(m),
{
}

} // verus!
