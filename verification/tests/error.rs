use cel_cxx::{Code, Error, ErrorSource, InvalidMapKeyType, ListType, ValueType};

#[test]
fn creating_errors() {
    let error = Error::invalid_argument("Expression syntax is invalid");
    assert_eq!(error.code(), Code::InvalidArgument);
    let error = Error::new(Code::InvalidArgument, "Invalid input provided");
    assert_eq!(error.code(), Code::InvalidArgument);
    assert_eq!(error.message(), "Invalid input provided");
    let error = Error::invalid_argument("Bad input");
    assert_eq!(error.message(), "Bad input");
}

#[test]
fn every_constructor_sets_its_code() {
    let cases: Vec<(Error, Code)> = vec![
        (Error::ok("m"), Code::Success),
        (Error::cancelled("m"), Code::Cancelled),
        (Error::unknown("m"), Code::Unknown),
        (Error::invalid_argument("m"), Code::InvalidArgument),
        (Error::deadline_exceeded("m"), Code::DeadlineExceeded),
        (Error::not_found("m"), Code::NotFound),
        (Error::already_exists("m"), Code::AlreadyExists),
        (Error::permission_denied("m"), Code::PermissionDenied),
        (Error::resource_exhausted("m"), Code::ResourceExhausted),
        (Error::failed_precondition("m"), Code::FailedPrecondition),
        (Error::aborted("m"), Code::Aborted),
        (Error::out_of_range("m"), Code::OutOfRange),
        (Error::unimplemented("m"), Code::Unimplemented),
        (Error::internal("m"), Code::Internal),
        (Error::unavailable("m"), Code::Unavailable),
        (Error::data_loss("m"), Code::DataLoss),
        (Error::unauthenticated("m"), Code::Unauthenticated),
    ];
    for (e, c) in cases {
        assert_eq!(e.code(), c);
        assert_eq!(e.message(), "m");
        assert_eq!(e.clone(), e);
    }
    assert_ne!(Error::internal("a"), Error::internal("b"));
    assert_ne!(Error::internal("a"), Error::unknown("a"));
}

#[test]
fn code_descriptions() {
    assert_eq!(Code::InvalidArgument.description(), "Client specified an invalid argument");
    assert_eq!(Code::Success.description(), "The operation completed successfully");
    assert_eq!(
        Code::PermissionDenied.to_string(),
        "The caller does not have permission to execute the specified operation"
    );
    assert_eq!(Code::Unauthenticated.description(), "The request does not have valid authentication credentials");
}

#[test]
fn source_chain_lookup() {
    let chain = vec![ErrorSource::Other, ErrorSource::Cel(Error::not_found("x")), ErrorSource::Other];
    assert_eq!(Error::find_in_source_chain(&chain), Some(Error::not_found("x")));
    let chain = vec![
        ErrorSource::Other,
        ErrorSource::InvalidMapKey(InvalidMapKeyType::new(ValueType::List(ListType::new(ValueType::Int)))),
        ErrorSource::Cel(Error::internal("later")),
    ];
    assert_eq!(Error::find_in_source_chain(&chain), Some(Error::invalid_argument("list<int>")));
    assert_eq!(Error::find_in_source_chain(&vec![ErrorSource::Other]), None);
    assert_eq!(Error::find_in_source_chain(&vec![]), None);
}

#[test]
fn error_display_text() {
    let e = Error::not_found("missing \"x\"");
    assert_eq!(e.to_string(), "code: NotFound, message: \"missing \\\"x\\\"\"");
    let ok = Error::ok("done");
    assert_eq!(ok.to_string(), "code: Ok, message: \"done\"");
    assert_eq!(Code::Success.name(), "Ok");
    assert_eq!(Code::InvalidArgument.name(), "InvalidArgument");
    assert_eq!(e.display_with("'q'"), "code: NotFound, message: 'q'");
}
