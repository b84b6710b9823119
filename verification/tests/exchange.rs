use duners::client::{BodyKind, DuneClient, ResponseBody};
use duners::error::{DuneError, DuneRequestError};

/// A response as reqwest hands it out, made from a status and a body.
fn response(status: u16, body: &'static str) -> reqwest::Response {
    reqwest::Response::from(
        http::Response::builder()
            .status(status)
            .body(body)
            .unwrap(),
    )
}

/// Waits for a future on this thread.
fn wait<F: std::future::Future>(future: F) -> F::Output {
    tokio::runtime::Builder::new_current_thread()
        .build()
        .unwrap()
        .block_on(future)
}

/// Reads a response as the library says to: the answer as a JSON string,
/// the error envelope by its field `error`.
fn read(status: u16, body: &'static str) -> Result<String, DuneRequestError> {
    let response = response(status, body);
    let decoded = match DuneClient::body_kind(response.status().as_u16()) {
        BodyKind::Payload => ResponseBody::Payload(wait(response.json::<String>())),
        BodyKind::ErrorEnvelope => ResponseBody::Failure(
            wait(response.json::<std::collections::HashMap<String, String>>()).map(|mut fields| {
                DuneError {
                    error: fields.remove("error").unwrap_or_default(),
                }
            }),
        ),
    };
    DuneClient::parse_response(decoded)
}

#[test]
fn body_of_a_success_is_the_answer() {
    assert_eq!(read(200, "\"fine\""), Ok("fine".to_string()));
    assert_eq!(read(201, "\"made\""), Ok("made".to_string()));
}

#[test]
fn undecodable_answer_is_a_decode_error() {
    let failure = wait(response(200, "{\"state\":\"QUERY_STATE_BOGUS\"}").json::<String>())
        .unwrap_err();
    assert!(failure.is_decode());
    assert_eq!(failure.to_string(), "error decoding response body");
    assert_eq!(
        read(200, "{\"state\":\"QUERY_STATE_BOGUS\"}"),
        Err(DuneRequestError::Decode(
            "error decoding response body".to_string()
        ))
    );
    assert_eq!(
        read(200, "not json"),
        Err(DuneRequestError::Decode(
            "error decoding response body".to_string()
        ))
    );
    assert_eq!(
        read(200, ""),
        Err(DuneRequestError::Decode(
            "error decoding response body".to_string()
        ))
    );
}

#[test]
fn invalid_api_key_is_a_remote_error() {
    assert_eq!(
        read(401, "{\"error\":\"invalid API Key\"}"),
        Err(DuneRequestError::Dune(String::from("invalid API Key")))
    );
}

#[test]
fn error_envelopes_of_any_other_status_are_remote_errors() {
    assert_eq!(
        read(
            400,
            "{\"error\":\"The requested execution ID (ID: wonky job ID) is invalid.\"}"
        ),
        Err(DuneRequestError::Dune(String::from(
            "The requested execution ID (ID: wonky job ID) is invalid."
        )))
    );
    assert_eq!(
        read(500, "{\"error\":\"An internal error occured\"}"),
        Err(DuneRequestError::Dune(String::from(
            "An internal error occured"
        )))
    );
    assert_eq!(
        read(404, "{\"error\":\"Query not found\"}"),
        Err(DuneRequestError::Dune(String::from("Query not found")))
    );
    assert_eq!(
        read(302, "{\"error\":\"moved\"}"),
        Err(DuneRequestError::Dune(String::from("moved")))
    );
}

#[test]
fn undecodable_envelope_is_a_decode_error() {
    assert_eq!(
        read(500, "<html>Bad Gateway</html>"),
        Err(DuneRequestError::Decode(
            "error decoding response body".to_string()
        ))
    );
    assert_eq!(
        read(404, ""),
        Err(DuneRequestError::Decode(
            "error decoding response body".to_string()
        ))
    );
}

#[test]
fn an_answer_under_a_failure_status_is_not_read_as_an_answer() {
    assert_eq!(
        read(500, "\"fine\""),
        Err(DuneRequestError::Decode(
            "error decoding response body".to_string()
        ))
    );
}
