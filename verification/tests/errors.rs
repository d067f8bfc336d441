use vaccel::capability::InvocationError;
use vaccel::server::reply;
use vaccel::Error;

#[test]
fn invocation_errors_keep_their_kind() {
    assert!(matches!(
        Error::from(InvocationError::InvalidArgument("Unknown model id".to_string())),
        Error::InvalidArgument
    ));
    assert!(matches!(Error::from(InvocationError::NotImplemented), Error::NotImplemented));
    assert!(matches!(
        Error::from(InvocationError::Unknown("oops".to_string())),
        Error::UndefinedError
    ));
    match Error::from(InvocationError::Implementation { error_code: 17, msg: "busy".to_string() }) {
        Error::Implementation { error_code, msg } => {
            assert_eq!(error_code, 17);
            assert_eq!(msg, "busy");
        }
        other => panic!("unexpected error {:?}", other),
    }
}

#[test]
fn reply_passes_success_through() {
    assert!(reply(Ok(())).is_ok());
    assert!(matches!(reply(Err(InvocationError::NotImplemented)), Err(Error::NotImplemented)));
    assert!(matches!(
        reply(Err(InvocationError::InvalidArgument("x".to_string()))),
        Err(Error::InvalidArgument)
    ));
    assert!(matches!(
        reply(Err(InvocationError::Implementation { error_code: 3, msg: "m".to_string() })),
        Err(Error::Implementation { error_code: 3, .. })
    ));
}

#[test]
fn io_error_keeps_its_text() {
    let err = std::io::Error::new(std::io::ErrorKind::Other, "disk on fire");
    match Error::from(err) {
        Error::IOError(text) => assert_eq!(text, "disk on fire"),
        other => panic!("unexpected error {:?}", other),
    }
}

#[test]
fn library_error_keeps_its_text() {
    match Error::from(libloading::Error::DlOpenUnknown) {
        Error::Plugin(text) => {
            assert_eq!(text, "dlopen failed, but system did not report the error")
        }
        other => panic!("unexpected error {:?}", other),
    }
    match Error::from(libloading::Error::DlSymUnknown) {
        Error::Plugin(text) => assert_eq!(text, "dlsym failed, but system did not report the error"),
        other => panic!("unexpected error {:?}", other),
    }
}
