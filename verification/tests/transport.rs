use up_api::envelope::Envelope;
use up_api::failure::ApiError;
use up_api::request::Request;
use up_api::transport::{is_success, Exchange, RequestSender};

fn answered(status: u16, body: &str) -> Exchange {
    Exchange::Answered { status, body: body.to_string() }
}

#[test]
fn success_is_two_hundred_to_two_ninety_nine() {
    for status in 0..=u16::MAX {
        assert_eq!(is_success(status), (200..=299).contains(&status));
    }
}

#[test]
fn success_agrees_with_the_http_status_classes() {
    for status in 100..1000u16 {
        let code = reqwest::StatusCode::from_u16(status).expect("a status code");
        assert_eq!(is_success(status), code.is_success());
    }
}

#[test]
fn successful_response_gives_its_body() {
    for status in [200u16, 201, 204, 250, 299] {
        assert_eq!(RequestSender::receive(answered(status, "{\"data\":[]}")), Ok("{\"data\":[]}".to_string()));
    }
}

#[test]
fn successful_response_with_empty_body_gives_the_empty_body() {
    assert_eq!(RequestSender::receive(answered(200, "")), Ok(String::new()));
}

#[test]
fn rejected_response_gives_its_body_as_the_error() {
    for status in [0u16, 100, 199, 300, 301, 400, 401, 404, 500, 503, 999, u16::MAX] {
        let received = RequestSender::receive(answered(status, "{\"errors\":[\"no\"]}"));
        assert_eq!(received, Err(ApiError::Api("{\"errors\":[\"no\"]}".to_string())));
    }
}

#[test]
fn retrieve_by_id_not_found_returns_the_body_not_a_record() {
    let body = "{\"errors\":[{\"status\":\"404\",\"title\":\"Not Found\"}]}";
    let received = RequestSender::receive(answered(404, body));
    match received {
        Err(error) => {
            assert_eq!(error, ApiError::Api(body.to_string()));
            assert_eq!(error.message(), body);
            assert_eq!(error.into_message(), body);
        }
        Ok(_) => panic!("a 404 must not be decoded"),
    }
}

#[test]
fn failed_exchange_gives_the_transport_description() {
    let received = RequestSender::receive(Exchange::Failed("connection refused".to_string()));
    assert_eq!(received, Err(ApiError::Transport("connection refused".to_string())));
}

#[test]
fn undecodable_body_is_a_decode_error() {
    let page: Result<Envelope<Vec<u8>>, ApiError> =
        RequestSender::decoded(Err("expected value at line 1 column 1".to_string()));
    match page {
        Err(error) => {
            assert_eq!(error, ApiError::Decode("expected value at line 1 column 1".to_string()));
            assert_eq!(error.message(), "expected value at line 1 column 1");
        }
        Ok(_) => panic!("a decode failure must stay a failure"),
    }
}

#[test]
fn decoded_body_is_passed_on() {
    let page = RequestSender::decoded(Ok(Envelope { data: vec![1u8, 2, 3], links: None }));
    match page {
        Ok(envelope) => {
            assert_eq!(envelope.data, vec![1u8, 2, 3]);
            assert!(envelope.links.is_none());
        }
        Err(_) => panic!("a decoded body must stay decoded"),
    }
}

#[test]
fn each_error_carries_its_text() {
    assert_eq!(ApiError::Transport("t".to_string()).message(), "t");
    assert_eq!(ApiError::Api("a".to_string()).message(), "a");
    assert_eq!(ApiError::Decode("d".to_string()).message(), "d");
    assert_eq!(ApiError::Transport("t".to_string()).into_message(), "t");
    assert_eq!(ApiError::Api("a".to_string()).into_message(), "a");
    assert_eq!(ApiError::Decode("d".to_string()).into_message(), "d");
}

#[test]
fn sender_puts_the_request_together() {
    let request = RequestSender::send(
        "https://example.test/x".to_string(),
        "Bearer k".to_string(),
        vec![("a".to_string(), "1".to_string()), ("b".to_string(), "2".to_string())],
    );
    assert_eq!(
        request,
        Request {
            url: "https://example.test/x".to_string(),
            auth_header: "Bearer k".to_string(),
            params: vec![("a".to_string(), "1".to_string()), ("b".to_string(), "2".to_string())],
        }
    );
}
