use labview_interop::errors::{InternalError, LVInteropError};
use labview_interop::mg_error::MgError;
use labview_interop::status::LVStatusCode;

#[test]
fn test_error_lvstatuscode_from_mgerror() {
    let err = MgError::BogusError;
    let status: LVStatusCode = err.into();

    assert_eq!(LVStatusCode::from(42), status)
}

#[test]
fn test_error_lvinteroperror_from_lvstatuscode() {
    let status = LVStatusCode::from(42);
    let mg_err = MgError::try_from(status).unwrap();

    let expected_code: LVStatusCode = 42.into();
    assert_eq!(expected_code, mg_err.into());
}

#[test]
fn test_error_lvstatuscode_from_lvinteroperror() {
    let err: LVInteropError = MgError::BogusError.into();
    let status: LVStatusCode = LVStatusCode::from(42);
    assert_eq!(status, err.into());

    let err: LVInteropError =
        InternalError::NoLabviewApi("Test Inner message".to_string()).into();
    let status: LVStatusCode = LVStatusCode::from(542_001);

    println!("{}", status.text());
    assert_eq!(status, err.into());
}

#[test]
fn test_error_lvstatuscode_from_i32() {
    let status = LVStatusCode::from(0);
    assert_eq!(status, LVStatusCode::success());

    let status = LVStatusCode::from(1);
    assert_eq!(status, LVStatusCode(1));

    let status: LVStatusCode = 42.into();
    assert_eq!(status, LVStatusCode(42));
}

#[test]
fn test_error_lvstatuscode_from_externc() {
    fn mock_externc() -> i32 {
        542_002
    }

    fn post_lv_user_event_safe() -> LVStatusCode {
        let result: i32 = mock_externc();
        LVStatusCode::from(result)
    }

    let lv_status = post_lv_user_event_safe();

    assert_eq!(lv_status, LVStatusCode(542_002));
}

#[test]
fn internal_codes_round_trip() {
    for code in 542_000..=542_006 {
        let status = LVStatusCode::from(code);
        let internal = InternalError::from_status(status).unwrap();
        assert_eq!(internal.status(), status);
        let back: LVStatusCode = internal.into();
        assert_eq!(back, status);
    }
    assert!(InternalError::from_status(LVStatusCode::from(542_007)).is_none());
    assert!(InternalError::from_status(LVStatusCode::from(0)).is_none());
    assert_eq!(InternalError::InvalidHandle.status(), LVStatusCode(542_002));
    assert_eq!(InternalError::InvalidMgErrorCode.status(), LVStatusCode(542_006));
}

#[test]
fn catalog_codes_round_trip() {
    for code in [1, 2, 4, 42, 56, 76, 81, 97, 102, 113, 116, 122] {
        let status = LVStatusCode::from(code);
        let named = MgError::try_from(status).unwrap();
        let back: LVStatusCode = named.into();
        assert_eq!(back, status);
    }
    let invalid = LVInteropError::InternalError(InternalError::InvalidMgErrorCode);
    assert_eq!(MgError::try_from(LVStatusCode::from(0)), Err(invalid.clone()));
    assert_eq!(MgError::try_from(LVStatusCode::from(3)), Err(invalid.clone()));
    assert_eq!(MgError::try_from(LVStatusCode::from(123)), Err(invalid.clone()));
    assert_eq!(MgError::try_from(LVStatusCode::from(-1)), Err(invalid));
}

#[test]
fn specific_result_prefers_catalog_errors() {
    assert_eq!(LVStatusCode::from(0).to_specific_result(7), Ok(7));
    assert_eq!(
        LVStatusCode::from(2).to_specific_result(7),
        Err(LVInteropError::LabviewMgError(MgError::MFullErr))
    );
    assert_eq!(
        LVStatusCode::from(5000).to_specific_result(7),
        Err(LVInteropError::LabviewError(LVStatusCode(5000)))
    );
    assert_eq!(LVStatusCode::from(0).to_generic_result("ok"), Ok("ok"));
    assert_eq!(
        LVStatusCode::from(2).to_generic_result(()),
        Err(LVInteropError::LabviewError(LVStatusCode(2)))
    );
}

#[test]
fn error_texts() {
    assert_eq!(MgError::MFullErr.description(), "Memory is full.");
    assert_eq!(MgError::MFullErr.code(), 2);
    let err = LVInteropError::from(MgError::BogusError);
    assert_eq!(err.description(), "Internal LabVIEW Manager Error: Generic error.");
    assert_eq!(err.source(), "Generic error.");
    let err = LVInteropError::from(InternalError::InvalidHandle);
    assert_eq!(
        err.description(),
        "Internal Error: Invalid handle when valid handle is required"
    );
    let err = LVInteropError::from(LVStatusCode::from(-8001));
    assert_eq!(err.description(), "LabVIEW Error: LVStatusCode: -8001");
    assert_eq!(err.source(), "");
    assert_eq!(LVStatusCode::from(i32::MIN).text(), "LVStatusCode: -2147483648");
    assert_eq!(LVStatusCode::from(0).text(), "LVStatusCode: 0");
    let err = LVInteropError::from(InternalError::NoLabviewApi("missing".to_string()));
    assert_eq!(
        err.source(),
        "LabVIEW API unavailable. Probably because it isn't being run in LabVIEW. Source Error: missing"
    );
}

#[test]
fn result_into_status() {
    let ok: labview_interop::errors::Result<u8> = Ok(3);
    assert_eq!(LVStatusCode::from(ok), LVStatusCode(0));
    let failed: labview_interop::errors::Result<u8> =
        Err(InternalError::HandleCreationFailed.into());
    assert_eq!(LVStatusCode::from(failed), LVStatusCode(542_005));
}
