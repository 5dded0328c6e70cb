use glfw::error::{INVALID_VALUE, NOT_INITIALIZED, NO_WINDOW_CONTEXT, PLATFORM_ERROR, UNKNOWN_DESCRIPTION};
use glfw::{init, ErrorKind, ErrorState};

#[test]
fn every_native_code_translates() {
    let cases = [
        (0x00010001, ErrorKind::NotInitialized),
        (0x00010002, ErrorKind::NoCurrentContext),
        (0x00010003, ErrorKind::InvalidEnum),
        (0x00010004, ErrorKind::InvalidValue),
        (0x00010005, ErrorKind::OutOfMemory),
        (0x00010006, ErrorKind::ApiUnavailable),
        (0x00010007, ErrorKind::VersionUnavailable),
        (0x00010008, ErrorKind::PlatformError),
        (0x00010009, ErrorKind::FormatUnavailable),
        (0x0001000A, ErrorKind::NoWindowContext),
    ];
    for (code, kind) in cases {
        assert_eq!(ErrorKind::from_code(code), Some(kind));
        assert_eq!(kind.code(), Some(code));
    }
    assert_eq!(ErrorKind::Unknown.code(), None);
}

#[test]
fn unknown_codes_do_not_translate() {
    assert_eq!(ErrorKind::from_code(0), None);
    assert_eq!(ErrorKind::from_code(0x00010000), None);
    assert_eq!(ErrorKind::from_code(0x0001000B), None);
    assert_eq!(ErrorKind::from_code(-1), None);
}

#[test]
fn report_keeps_the_latest_error() {
    let mut errors = ErrorState::new();
    assert!(!errors.is_set());
    assert!(errors.report(INVALID_VALUE, "first".to_string()));
    assert!(errors.report(PLATFORM_ERROR, "second".to_string()));
    assert!(errors.is_set());
    let e = errors.check_and_clear().unwrap_err();
    assert_eq!(e.kind, ErrorKind::PlatformError);
    assert_eq!(e.description, "second");
    assert!(!errors.is_set());
    assert!(errors.check_and_clear().is_ok());
}

#[test]
fn report_refuses_an_undefined_code() {
    let mut errors = ErrorState::new();
    assert!(errors.report(NO_WINDOW_CONTEXT, "kept".to_string()));
    assert!(!errors.report(0x00020001, "dropped".to_string()));
    let e = errors.check_and_clear().unwrap_err();
    assert_eq!(e.kind, ErrorKind::NoWindowContext);
    assert_eq!(e.description, "kept");
}

#[test]
fn take_failure_without_a_report_is_unknown() {
    let mut errors = ErrorState::new();
    let e = errors.take_failure();
    assert_eq!(e.kind, ErrorKind::Unknown);
    assert_eq!(e.description, UNKNOWN_DESCRIPTION);
}

#[test]
fn init_succeeds_when_native_init_does() {
    let mut errors = ErrorState::new();
    let glfw = init(1, &mut errors).unwrap();
    assert!(glfw.pending_hints().is_empty());
    assert_eq!(glfw.current_context(), None);
    assert!(glfw.terminate().is_empty());
}

#[test]
fn init_success_discards_a_stale_error() {
    let mut errors = ErrorState::new();
    assert!(errors.report(PLATFORM_ERROR, "stale".to_string()));
    assert!(init(1, &mut errors).is_ok());
    assert!(!errors.is_set());
}

#[test]
fn init_failure_carries_the_injected_code() {
    let mut errors = ErrorState::new();
    assert!(errors.report(NOT_INITIALIZED, "The GLFW library is not initialized".to_string()));
    let e = init(0, &mut errors).err().unwrap();
    assert_eq!(e.kind, ErrorKind::NotInitialized);
    assert_eq!(e.description, "The GLFW library is not initialized");
    assert!(!errors.is_set());
}

#[test]
fn init_failure_without_a_report_is_unknown() {
    let mut errors = ErrorState::new();
    let e = init(0, &mut errors).err().unwrap();
    assert_eq!(e.kind, ErrorKind::Unknown);
}
