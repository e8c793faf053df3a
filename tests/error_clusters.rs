use labview_interop::boolean::LVBool;
use labview_interop::error_cluster::{
    format_error_source, write_error, ErrorCluster, ErrorClusterPtr, ToLvError, GENERIC_ERROR,
};
use labview_interop::errors::{InternalError, LVInteropError};
use labview_interop::host::{Abi, HostMemory, MemoryManager};
use labview_interop::memory::UPtr;
use labview_interop::status::LVStatusCode;
use labview_interop::string::LStrHandle;

fn cluster(mem: &mut HostMemory, status: u8, code: i32) -> ErrorClusterPtr {
    let source = LStrHandle::from_raw(mem.new_handle(0));
    UPtr::new(ErrorCluster { status: LVBool(status), code: LVStatusCode(code), source })
}

fn source_text(ptr: &ErrorClusterPtr, mem: &HostMemory) -> String {
    let c = ptr.as_ref().unwrap();
    c.source.read_string(mem).unwrap().to_rust_string()
}

#[test]
fn test_source_writer_empty_description() {
    let source = format_error_source("Rust", "");
    assert_eq!(source, "Rust");
}

#[test]
fn test_source_writer_with_description() {
    let source = format_error_source("Rust", "An Error Occured");
    let expected = "Rust\n<ERR>\nAn Error Occured";
    assert_eq!(source, expected)
}

#[test]
fn test_source_writer_empty_source() {
    let source = format_error_source("", "An Error Occured");
    let expected = "<ERR>\nAn Error Occured";
    assert_eq!(source, expected)
}

struct ErrorText(&'static str);

impl ToLvError for ErrorText {
    fn spec_code(&self) -> LVStatusCode {
        self.code()
    }

    fn spec_is_error(&self) -> bool {
        self.is_error()
    }

    fn spec_source(&self) -> String {
        self.source()
    }

    fn spec_description(&self) -> String {
        self.description()
    }

    fn code(&self) -> LVStatusCode {
        LVStatusCode::from(GENERIC_ERROR)
    }

    fn is_error(&self) -> bool {
        true
    }

    fn source(&self) -> String {
        "Rust".to_string()
    }

    fn description(&self) -> String {
        self.0.to_string()
    }
}

struct Warning;

impl ToLvError for Warning {
    fn spec_code(&self) -> LVStatusCode {
        self.code()
    }

    fn spec_is_error(&self) -> bool {
        self.is_error()
    }

    fn spec_source(&self) -> String {
        self.source()
    }

    fn spec_description(&self) -> String {
        self.description()
    }

    fn code(&self) -> LVStatusCode {
        LVStatusCode::from(5001)
    }

    fn is_error(&self) -> bool {
        false
    }

    fn source(&self) -> String {
        String::new()
    }

    fn description(&self) -> String {
        "careful".to_string()
    }
}

#[test]
fn write_error_and_warning() {
    let mut mem = HostMemory::new(Abi::Natural64, true, 1 << 16);
    let mut ptr = cluster(&mut mem, 0, 0);
    write_error(&ErrorText("This is a test"), &mut ptr, &mut mem).unwrap();
    assert!(ptr.as_ref().unwrap().is_err());
    assert_eq!(ptr.as_ref().unwrap().code, LVStatusCode(42));
    assert_eq!(source_text(&ptr, &mem), "Rust\n<ERR>\nThis is a test");

    let mut ptr = cluster(&mut mem, 0, 0);
    write_error(&Warning, &mut ptr, &mut mem).unwrap();
    assert!(!ptr.as_ref().unwrap().is_err());
    assert_eq!(ptr.as_ref().unwrap().code, LVStatusCode(5001));
    assert_eq!(source_text(&ptr, &mem), "<ERR>\ncareful");

    let mut null: ErrorClusterPtr = UPtr::null();
    assert_eq!(
        write_error(&Warning, &mut null, &mut mem),
        Err(LVInteropError::InternalError(InternalError::InvalidHandle))
    );
}

#[test]
fn wrap_function_skips_work_on_error() {
    let mut mem = HostMemory::new(Abi::Natural64, true, 1 << 16);
    let mut ptr = cluster(&mut mem, 1, 7);
    let mut calls = 0;
    let result = ptr.wrap_function(&mut mem, 42, |_m: &mut HostMemory| -> Result<i32, LVInteropError> {
        calls += 1;
        Ok(0)
    });
    assert_eq!(result, 42);
    assert_eq!(calls, 0);
    assert_eq!(ptr.as_ref().unwrap().code, LVStatusCode(7));
    let status = ptr.wrap_return_status(&mut mem, |_m: &mut HostMemory| -> Result<(), LVInteropError> {
        calls += 1;
        Ok(())
    });
    assert_eq!(calls, 0);
    assert_eq!(status, LVStatusCode(7));
}

#[test]
fn wrap_function_records_failure() {
    let mut mem = HostMemory::new(Abi::Natural64, true, 1 << 16);
    let mut text = LStrHandle::from_raw(mem.new_handle(0));
    let mut ptr = cluster(&mut mem, 0, 0);
    let result = ptr.wrap_function(&mut mem, 42, |m: &mut HostMemory| -> Result<i32, LVInteropError> {
        text.set_str(m, "Hello World")?;
        Err(LVInteropError::from(LVStatusCode::from(1)))
    });
    assert_eq!(result, 42);
    assert!(ptr.as_ref().unwrap().is_err());
    assert_eq!(ptr.as_ref().unwrap().code, LVStatusCode(1));
    assert_eq!(
        source_text(&ptr, &mem),
        "<ERR>\nLabVIEW Error: LVStatusCode: 1"
    );
    assert_eq!(text.read_string(&mem).unwrap().to_rust_string(), "Hello World");

    let mut ptr = cluster(&mut mem, 0, 0);
    let result = ptr.wrap_function(&mut mem, 42, |_m: &mut HostMemory| -> Result<i32, LVInteropError> {
        Ok(0)
    });
    assert_eq!(result, 0);
    assert!(!ptr.as_ref().unwrap().is_err());

    let mut ptr = cluster(&mut mem, 0, 0);
    let status = ptr.wrap_return_status(&mut mem, |_m: &mut HostMemory| -> Result<(), LVInteropError> {
        Err(InternalError::InvalidHandle.into())
    });
    assert_eq!(status, LVStatusCode(542_002));
    assert_eq!(
        source_text(&ptr, &mem),
        "Invalid handle when valid handle is required\n<ERR>\nInternal Error: Invalid handle when valid handle is required"
    );
}

#[test]
fn warning_state_does_not_block_work() {
    let mut mem = HostMemory::new(Abi::Natural64, true, 1 << 16);
    let mut ptr = cluster(&mut mem, 0, 0);
    {
        let c = ptr.as_ref_mut().unwrap();
        c.set_warning(&mut mem, LVStatusCode(5002), "src", "desc").unwrap();
    }
    assert_eq!(source_text(&ptr, &mem), "src\n<ERR>\ndesc");
    let mut calls = 0;
    let result = ptr.wrap_function(&mut mem, 1, |_m: &mut HostMemory| -> Result<i32, LVInteropError> {
        calls += 1;
        Ok(2)
    });
    assert_eq!(result, 2);
    assert_eq!(calls, 1);
}

#[test]
fn status_descriptions() {
    let mem = HostMemory::new(Abi::Natural64, true, 16);
    assert_eq!(LVStatusCode::from(2).description(&mem), "Memory is full.");
    assert_eq!(
        LVStatusCode::from(9999).description(&mem),
        "LabVIEW-Interop: Description not retrievable"
    );
    let mem = HostMemory::new(Abi::Natural64, false, 16);
    assert_eq!(
        LVStatusCode::from(2).description(&mem),
        "LabVIEW-Interop: Description not retrievable"
    );
}

#[test]
fn wrap_return_status_without_cluster() {
    let mut mem = HostMemory::new(Abi::Natural64, true, 1 << 16);
    let mut null: ErrorClusterPtr = UPtr::null();
    let status = null.wrap_return_status(&mut mem, |_m: &mut HostMemory| -> Result<(), LVInteropError> {
        Err(InternalError::ArrayDimensionMismatch.into())
    });
    assert_eq!(status, LVStatusCode(542_004));
    let status = null.wrap_return_status(&mut mem, |_m: &mut HostMemory| -> Result<(), LVInteropError> {
        Ok(())
    });
    assert_eq!(status, LVStatusCode(0));
    let mut ptr = cluster(&mut mem, 0, 0);
    let error: LVInteropError = InternalError::InvalidHandle.into();
    write_error(&error, &mut ptr, &mut mem).unwrap();
    assert_eq!(ptr.as_ref().unwrap().code, LVStatusCode(542_002));
    assert!(ptr.as_ref().unwrap().is_err());
}
