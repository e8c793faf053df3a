//! The host's three-field error cluster, and running units of work under its
//! rules: no work while an error is present, and a failure of the work
//! recorded in the cluster.
use vstd::prelude::*;

use crate::boolean::LVBool;
use crate::errors::{
    error_code, interop_description, interop_source, InternalError, LVInteropError, Result,
};
use crate::host::{HostMemoryView, MemoryManager};
use crate::memory::UPtr;
use crate::status::LVStatusCode;
use crate::string::{lv_encoded, set_outcome, LStr, LStrHandle};

verus! {

/// The cluster the host passes for errors: a status flag that says whether
/// an error is present, a code, and a handle to the source text.
pub struct ErrorCluster {
    pub status: LVBool,
    pub code: LVStatusCode,
    pub source: LStrHandle,
}

/// The error cluster as the host passes it, by pointer.
pub type ErrorClusterPtr = UPtr<ErrorCluster>;

/// The source text that the host shows for a source and a description: the
/// two on either side of an `<ERR>` line, the source alone where the
/// description is empty.
pub open spec fn error_source_text(source: Seq<char>, description: Seq<char>) -> Seq<char> {
    if source.len() == 0 {
        "<ERR>\n"@ + description
    } else if description.len() == 0 {
        source
    } else {
        source + "\n<ERR>\n"@ + description
    }
}

/// The source text that the host shows for a source and a description.
pub fn format_error_source(source: &str, description: &str) -> (r: String)
    ensures
        r@ == error_source_text(source@, description@),
{
    if source.unicode_len() == 0 {
        let text = String::from_str("<ERR>\n");
        text.concat(description)
    } else if description.unicode_len() == 0 {
        String::from_str(source)
    } else {
        let text = String::from_str(source);
        let text = text.concat("\n<ERR>\n");
        text.concat(description)
    }
}

/// What writing `code`, `flag` and the source text into a cluster leaves.
pub open spec fn cluster_written(
    before: ErrorCluster,
    after: ErrorCluster,
    mem_before: HostMemoryView,
    mem_after: HostMemoryView,
    code: LVStatusCode,
    flag: u8,
    text: Seq<char>,
    r: Result<()>,
) -> bool {
    &&& after.code == code
    &&& after.status == LVBool(flag)
    &&& after.source.addr == before.source.addr
    &&& if lv_encoded(text).len() <= i32::MAX {
        set_outcome(mem_before, mem_after, before.source.addr, lv_encoded(text), r)
    } else {
        r == Err::<(), LVInteropError>(
            LVInteropError::InternalError(InternalError::ArrayDimensionsOutOfRange),
        ) && mem_after == mem_before
    }
}

impl ErrorCluster {
    /// Whether the cluster holds an error.
    pub fn is_err(&self) -> (r: bool)
        ensures
            r == (self.status.0 != 0),
    {
        self.status.0 != 0
    }

    /// Stores the source text for `source` and `description`.
    fn set_source<M: MemoryManager>(&mut self, mem: &mut M, source: &str, description: &str) -> (r: Result<
        (),
    >)
        ensures
            final(self).code == old(self).code,
            final(self).status == old(self).status,
            cluster_written(
                *old(self),
                *final(self),
                old(mem)@,
                final(mem)@,
                old(self).code,
                old(self).status.0,
                error_source_text(source@, description@),
                r,
            ),
    {
        let full_source = format_error_source(source, description);
        self.source.set_str(mem, full_source.as_str())
    }

    /// Puts the cluster in the warning state: the code and source text
    /// given, the status flag clear.
    pub fn set_warning<M: MemoryManager>(
        &mut self,
        mem: &mut M,
        code: LVStatusCode,
        source: &str,
        description: &str,
    ) -> (r: Result<()>)
        ensures
            cluster_written(
                *old(self),
                *final(self),
                old(mem)@,
                final(mem)@,
                code,
                0,
                error_source_text(source@, description@),
                r,
            ),
    {
        self.code = code;
        self.status = LVBool(0);
        self.set_source(mem, source, description)
    }

    /// Puts the cluster in the error state: the code and source text given,
    /// the status flag set.
    pub fn set_error<M: MemoryManager>(
        &mut self,
        mem: &mut M,
        code: LVStatusCode,
        source: &str,
        description: &str,
    ) -> (r: Result<()>)
        ensures
            cluster_written(
                *old(self),
                *final(self),
                old(mem)@,
                final(mem)@,
                code,
                1,
                error_source_text(source@, description@),
                r,
            ),
    {
        self.code = code;
        self.status = LVBool(1);
        self.set_source(mem, source, description)
    }
}

/// Errors that can be written into an error cluster.
///
/// Each method comes with a spec function that names what it returns, so
/// that what is written can be stated. The host's convention for an error
/// without a code of its own is `GENERIC_ERROR`, an error rather than a
/// warning, with an empty source.
pub trait ToLvError {
    /// The code the error stands for.
    spec fn spec_code(&self) -> LVStatusCode;

    /// Whether it is an error rather than a warning.
    spec fn spec_is_error(&self) -> bool;

    /// The source of the error.
    spec fn spec_source(&self) -> String;

    /// The description of the error.
    spec fn spec_description(&self) -> String;

    /// The code the error stands for.
    fn code(&self) -> (r: LVStatusCode)
        ensures
            r == self.spec_code(),
    ;

    /// Whether it is an error rather than a warning.
    fn is_error(&self) -> (r: bool)
        ensures
            r == self.spec_is_error(),
    ;

    /// The source of the error.
    fn source(&self) -> (r: String)
        ensures
            r@ == self.spec_source()@,
    ;

    /// The description of the error.
    fn description(&self) -> (r: String)
        ensures
            r@ == self.spec_description()@,
    ;
}

/// The host's code for a generic error.
pub const GENERIC_ERROR: i32 = 42;

impl ToLvError for LVInteropError {
    open spec fn spec_code(&self) -> LVStatusCode {
        LVStatusCode(error_code(*self) as i32)
    }

    open spec fn spec_is_error(&self) -> bool {
        true
    }

    open spec fn spec_source(&self) -> String {
        choose|s: String| s@ == interop_source(*self)
    }

    open spec fn spec_description(&self) -> String {
        choose|s: String| s@ == interop_description(*self)
    }

    fn code(&self) -> (r: LVStatusCode) {
        self.status()
    }

    fn is_error(&self) -> (r: bool) {
        true
    }

    fn source(&self) -> (r: String) {
        let r = LVInteropError::source(self);
        proof {
            assert(exists|s: String| s@ == interop_source(*self)) by {
                assert(r@ == interop_source(*self));
            }
        }
        r
    }

    fn description(&self) -> (r: String) {
        let r = LVInteropError::description(self);
        proof {
            assert(exists|s: String| s@ == interop_description(*self)) by {
                assert(r@ == interop_description(*self));
            }
        }
        r
    }
}

/// What writing `code`, the error flag and the text for `source` and
/// `description` into the cluster that `before` points to leaves.
pub open spec fn parts_written(
    before: ErrorClusterPtr,
    after: ErrorClusterPtr,
    mem_before: HostMemoryView,
    mem_after: HostMemoryView,
    code: LVStatusCode,
    is_error: bool,
    source: Seq<char>,
    description: Seq<char>,
    r: Result<()>,
) -> bool {
    match before.0 {
        None => r == Err::<(), LVInteropError>(crate::memory::invalid_handle()) && after.0 is None
            && mem_after == mem_before,
        Some(c) => after.0 matches Some(d) && cluster_written(
            c,
            d,
            mem_before,
            mem_after,
            code,
            if is_error {
                1
            } else {
                0
            },
            error_source_text(source, description),
            r,
        ),
    }
}

/// Writes an error into the cluster: `code` and the source text for
/// `source` and `description`, with the status flag set for an error and
/// clear for a warning. Fails with `InvalidHandle` for a null cluster
/// pointer.
pub fn write_error_parts<M: MemoryManager>(
    cluster: &mut ErrorClusterPtr,
    mem: &mut M,
    code: LVStatusCode,
    is_error: bool,
    source: &str,
    description: &str,
) -> (r: Result<()>)
    ensures
        parts_written(
            *old(cluster),
            *final(cluster),
            old(mem)@,
            final(mem)@,
            code,
            is_error,
            source@,
            description@,
            r,
        ),
{
    let target = match cluster.as_ref_mut() {
        Ok(c) => c,
        Err(e) => {
            return Err(e);
        },
    };
    if is_error {
        target.set_error(mem, code, source, description)
    } else {
        target.set_warning(mem, code, source, description)
    }
}

/// Writes `error` into the cluster: the code, error flag, source and
/// description that its methods give, as `write_error_parts` writes them.
/// Fails with `InvalidHandle` for a null cluster pointer.
pub fn write_error<M: MemoryManager, E: ToLvError>(
    error: &E,
    cluster: &mut ErrorClusterPtr,
    mem: &mut M,
) -> (r: Result<()>)
    ensures
        parts_written(
            *old(cluster),
            *final(cluster),
            old(mem)@,
            final(mem)@,
            error.spec_code(),
            error.spec_is_error(),
            error.spec_source()@,
            error.spec_description()@,
            r,
        ),
{
    let code = error.code();
    let is_error = error.is_error();
    let source = error.source();
    let description = error.description();
    write_error_parts(cluster, mem, code, is_error, source.as_str(), description.as_str())
}

/// True where the pointer reaches a cluster that already holds an error.
pub open spec fn holds_error(cluster: ErrorClusterPtr) -> bool {
    cluster.0 matches Some(c) && c.status.0 != 0
}

/// What a unit of work leaves where it ran and answered `outcome`: its value
/// where it succeeded; otherwise `return_on_error`, with the error written
/// into the cluster.
pub open spec fn work_recorded<R, E: ToLvError>(
    outcome: core::result::Result<R, E>,
    return_on_error: R,
    before: ErrorClusterPtr,
    after: ErrorClusterPtr,
    mem_before: HostMemoryView,
    mem_after: HostMemoryView,
    r: R,
) -> bool {
    match outcome {
        Ok(v) => r == v && after == before && mem_after == mem_before,
        Err(e) => r == return_on_error && exists|w: Result<()>|
            parts_written(
                before,
                after,
                mem_before,
                mem_after,
                e.spec_code(),
                e.spec_is_error(),
                e.spec_source()@,
                e.spec_description()@,
                w,
            ),
    }
}

impl UPtr<ErrorCluster> {
    /// Runs `function` under the host's error rules. Where the cluster
    /// already holds an error, `function` is not run and `return_on_error`
    /// comes back. Otherwise `function` runs with the memory; its value
    /// comes back where it succeeds, and where it fails its error is written
    /// into the cluster and `return_on_error` comes back.
    pub fn wrap_function<M: MemoryManager, R, E: ToLvError, F: FnOnce(&mut M) -> core::result::Result<R, E>>(
        &mut self,
        mem: &mut M,
        return_on_error: R,
        function: F,
    ) -> (r: R)
        requires
            !holds_error(*old(self)) ==> forall|m: &mut M| function.requires((m,)),
        ensures
            holds_error(*old(self)) ==> r == return_on_error && *final(self) == *old(self)
                && final(mem)@ == old(mem)@,
            !holds_error(*old(self)) ==> exists|
                m: &mut M,
                outcome: core::result::Result<R, E>,
            |
                #![trigger function.ensures((m,), outcome)]
                *m == *old(mem) && function.ensures((m,), outcome) && work_recorded(
                    outcome,
                    return_on_error,
                    *old(self),
                    *final(self),
                    final(m)@,
                    final(mem)@,
                    r,
                ),
    {
        let already = match &self.0 {
            Some(c) => c.is_err(),
            None => false,
        };
        if already {
            return return_on_error;
        }
        let outcome = function(mem);
        let ghost worked = mem@;
        let ghost observed = outcome;
        let ghost default_value = return_on_error;
        let ghost pointer = *self;
        match outcome {
            Ok(value) => {
                proof {
                    assert(work_recorded(observed, default_value, pointer, *self, worked, mem@, value));
                }
                value
            },
            Err(error) => {
                let written = write_error(&error, self, mem);
                proof {
                    assert(work_recorded(observed, default_value, pointer, *self, worked, mem@, return_on_error));
                }
                return_on_error
            },
        }
    }

    /// Runs `function` under the host's error rules, as `wrap_function`
    /// does, and returns the status that results: the cluster's code where
    /// there is a cluster, else success or the code of the work's error.
    pub fn wrap_return_status<M: MemoryManager, E: ToLvError, F: FnOnce(&mut M) -> core::result::Result<(), E>>(
        &mut self,
        mem: &mut M,
        function: F,
    ) -> (r: LVStatusCode)
        requires
            !holds_error(*old(self)) ==> forall|m: &mut M| function.requires((m,)),
        ensures
            holds_error(*old(self)) ==> r == old(self).0.unwrap().code && *final(self) == *old(self)
                && final(mem)@ == old(mem)@,
            !holds_error(*old(self)) ==> exists|
                m: &mut M,
                outcome: core::result::Result<(), E>,
            |
                #![trigger function.ensures((m,), outcome)]
                *m == *old(mem) && function.ensures((m,), outcome) && work_recorded(
                    outcome,
                    (),
                    *old(self),
                    *final(self),
                    final(m)@,
                    final(mem)@,
                    (),
                ) && status_after(outcome, *final(self), r),
    {
        let already = match &self.0 {
            Some(c) => c.is_err(),
            None => false,
        };
        if already {
            return self.0.as_ref().unwrap().code;
        }
        let outcome = function(mem);
        let ghost worked = mem@;
        let ghost observed = outcome;
        let ghost pointer = *self;
        let failure_code = match &outcome {
            Ok(()) => LVStatusCode(0),
            Err(error) => error.code(),
        };
        match outcome {
            Ok(()) => {},
            Err(error) => {
                let written = write_error(&error, self, mem);
                proof {
                    assert(work_recorded(observed, (), pointer, *self, worked, mem@, ()));
                }
            },
        }
        let r = match &self.0 {
            Some(c) => c.code,
            None => failure_code,
        };
        proof {
            assert(work_recorded(observed, (), pointer, *self, worked, mem@, ()));
        }
        r
    }
}

/// The status that a unit of work leaves: the cluster's code where there
/// is a cluster; else success, or the code of the work's error.
pub open spec fn status_after<E: ToLvError>(
    outcome: core::result::Result<(), E>,
    after: ErrorClusterPtr,
    r: LVStatusCode,
) -> bool {
    match after.0 {
        Some(c) => r == c.code,
        None => match outcome {
            Ok(()) => r.0 == 0,
            Err(e) => r == e.spec_code(),
        },
    }
}

} // verus!
