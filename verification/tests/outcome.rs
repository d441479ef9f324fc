use selectel_mks::error::MKSError;
use selectel_mks::{interpret_outcome, ExecOutcome};

#[test]
fn success_status_returns_body_verbatim() {
    let body = String::from("{\"clusters\":[]}");
    let r = interpret_outcome(ExecOutcome::Completed(200, body.clone()));
    assert_eq!(r.unwrap(), body);

    let r = interpret_outcome(ExecOutcome::Completed(299, String::from("x")));
    assert_eq!(r.unwrap(), "x");
}

#[test]
fn bad_status_preserves_status_and_body() {
    let body = String::from("{\"error\":\"cluster not found\"}");
    match interpret_outcome(ExecOutcome::Completed(404, body.clone())) {
        Err(MKSError::HttpError(status, raw)) => {
            assert_eq!(status, 404);
            assert_eq!(raw, body);
        }
        _ => panic!("expected HttpError"),
    }
    // 3xx is not a success either.
    assert!(matches!(
        interpret_outcome(ExecOutcome::Completed(301, String::new())),
        Err(MKSError::HttpError(301, _))
    ));
    assert!(matches!(
        interpret_outcome(ExecOutcome::Completed(199, String::new())),
        Err(MKSError::HttpError(199, _))
    ));
}

#[test]
fn timeout_yields_timeout_error_and_is_repeatable() {
    assert!(matches!(
        interpret_outcome(ExecOutcome::TimedOut),
        Err(MKSError::TimeoutError)
    ));
    // Repeating the same timed-out exchange is safe and independent: the
    // outcome maps to the same error again, never to a success value.
    assert!(matches!(
        interpret_outcome(ExecOutcome::TimedOut),
        Err(MKSError::TimeoutError)
    ));
}

#[test]
fn error_messages() {
    assert_eq!(
        MKSError::HttpError(404, String::from("oops")).message(),
        "bad status code: 404, error body: oops"
    );
    assert_eq!(
        MKSError::DeserializeError(String::from("malformed JSON text"), String::from("zzz"))
            .message(),
        "failed to deserialize body: malformed JSON text, error: zzz"
    );
    assert_eq!(
        MKSError::SerializeError(String::from("cause")).message(),
        "failed to serialize a struct, error: cause"
    );
    assert_eq!(
        MKSError::EndpointError.message(),
        "failed to parse base endpoint URL"
    );
    assert_eq!(MKSError::EmptyTokenError.message(), "token cannot be empty");
    assert_eq!(
        MKSError::RequestError.message(),
        "failed to build a new request"
    );
    assert_eq!(MKSError::TimeoutError.message(), "request timed out");
    assert_eq!(
        MKSError::UrlError.message(),
        "failed to parse URL for request"
    );
}
