use postmark_client::wire::request_body;
use postmark_client::{
    BatchPlan, Client, ClientError, Email, OutboundEmailBody, SecretString, SendEmailResponse,
};

fn client() -> Client {
    let base_url = reqwest::Url::parse("http://localhost:8080/").unwrap();
    Client::builder()
        .base_url(base_url)
        .sender(Email::parse("from@example.com").unwrap())
        .auth_token(SecretString::from("server-token".to_string()))
        .timeout(1)
        .build()
        .unwrap()
}

fn message(to: &str) -> OutboundEmailBody {
    OutboundEmailBody::builder(Email::parse(to).unwrap())
        .subject("Hi")
        .html_body("<p>x</p>")
        .text_body("x")
        .build()
}

#[test]
fn client_builder_requires_each_field() {
    let missing_url = Client::builder()
        .sender(Email::parse("from@example.com").unwrap())
        .auth_token(SecretString::from("t".to_string()))
        .build();
    match missing_url {
        Err(ClientError::Configuration(m)) => assert_eq!(m, "Postmark base URL is required"),
        other => panic!("unexpected result: {:?}", other.map(|_| ())),
    }

    let url = reqwest::Url::parse("http://localhost/").unwrap();
    let missing_sender = Client::builder()
        .base_url(url.clone())
        .auth_token(SecretString::from("t".to_string()))
        .build();
    match missing_sender {
        Err(ClientError::Configuration(m)) => {
            assert_eq!(m, "Postmark sender email is required")
        }
        other => panic!("unexpected result: {:?}", other.map(|_| ())),
    }

    let missing_token = Client::builder()
        .base_url(url)
        .sender(Email::parse("from@example.com").unwrap())
        .build();
    match missing_token {
        Err(ClientError::Configuration(m)) => assert_eq!(m, "Postmark auth token is required"),
        other => panic!("unexpected result: {:?}", other.map(|_| ())),
    }
}

#[test]
fn client_builder_defaults_timeout_to_ten_seconds() {
    let base_url = reqwest::Url::parse("http://localhost/").unwrap();
    let built = Client::builder()
        .base_url(base_url)
        .sender(Email::parse("from@example.com").unwrap())
        .auth_token(SecretString::from("t".to_string()))
        .build()
        .unwrap();
    assert_eq!(built.timeout_secs(), 10);
    assert_eq!(client().timeout_secs(), 1);
}

#[test]
fn secret_round_trips_through_expose() {
    let secret = SecretString::from("server-token-value".to_string());
    assert_eq!(secret.expose_secret(), "server-token-value");
}

#[test]
fn prepare_send_resolves_endpoint_and_attaches_credential() {
    let message = message("r@example.com");
    let prepared = client().prepare_send(&message).unwrap();
    assert_eq!(prepared.url.as_str(), "http://localhost:8080/email");
    assert_eq!(prepared.token, "server-token");
    assert_eq!(
        prepared.body,
        request_body(&Email::parse("from@example.com").unwrap(), &message, &None)
    );
}

#[test]
fn prepare_send_simple_fills_subject_and_both_bodies() {
    let recipient = Email::parse("r@example.com").unwrap();
    let prepared = client()
        .prepare_send_simple(&recipient, "Hi", "<p>x</p>", "x", None, None)
        .unwrap();
    assert!(prepared.body.contains("\"To\":\"r@example.com\""));
    assert!(prepared.body.contains("\"Subject\":\"Hi\""));
    assert!(prepared.body.contains("\"HtmlBody\":\"<p>x</p>\""));
    assert!(prepared.body.contains("\"TextBody\":\"x\""));
}

#[test]
fn prepare_send_simple_puts_the_display_name_in_the_recipient() {
    let recipient = Email::parse("r@example.com").unwrap();
    let prepared = client()
        .prepare_send_simple(&recipient, "Hi", "<p>x</p>", "x", Some("Jim Lovell"), None)
        .unwrap();
    assert!(prepared.body.contains("\"To\":\"Jim Lovell <r@example.com>\""));
}

#[test]
fn empty_batch_needs_no_dispatch() {
    let plan = client().prepare_batch(&vec![]).unwrap();
    assert!(matches!(plan, BatchPlan::Empty));
}

#[test]
fn oversized_batch_is_rejected_before_any_dispatch() {
    let mut messages = Vec::new();
    for _ in 0..501 {
        messages.push(message("r@example.com"));
    }
    match client().prepare_batch(&messages) {
        Err(ClientError::Configuration(m)) => {
            assert_eq!(m, "a batch cannot exceed 500 messages")
        }
        other => panic!("unexpected result: {:?}", other.map(|_| ())),
    }
}

#[test]
fn batch_body_is_the_array_of_mapped_requests_in_order() {
    let first = message("a@example.com");
    let second = message("b@example.com");
    let sender = Email::parse("from@example.com").unwrap();
    let expected = format!(
        "[{},{}]",
        request_body(&sender, &first, &None),
        request_body(&sender, &second, &None)
    );
    let plan = client().prepare_batch(&vec![first, second]).unwrap();
    match plan {
        BatchPlan::Dispatch(prepared) => {
            assert_eq!(prepared.url.as_str(), "http://localhost:8080/email/batch");
            assert_eq!(prepared.body, expected);
            assert_eq!(prepared.token, "server-token");
        }
        BatchPlan::Empty => panic!("expected a dispatch"),
    }
}

#[test]
fn a_success_response_parses_into_a_result() {
    let body = "{\"ErrorCode\":0,\"Message\":\"OK\",\"MessageID\":\"id-1\",\
                \"SubmittedAt\":\"2020-01-01T00:00:00Z\",\"To\":\"r@example.com\"}";
    let result = Client::classify_response(200, body.to_string()).unwrap();
    assert_eq!(
        result,
        SendEmailResponse {
            error_code: 0,
            message: "OK".to_string(),
            message_id: "id-1".to_string(),
            submitted_at: "2020-01-01T00:00:00Z".to_string(),
            to: "r@example.com".to_string(),
        }
    );
}

#[test]
fn a_malformed_success_body_is_a_serialization_failure() {
    match Client::classify_response(200, "not json".to_string()) {
        Err(ClientError::Serialization(_)) => {}
        other => panic!("unexpected result: {:?}", other),
    }
    match Client::classify_response(204, "{\"Message\":\"missing fields\"}".to_string()) {
        Err(ClientError::Serialization(m)) => {
            assert_eq!(m, "response field is missing or not an integer: ErrorCode")
        }
        other => panic!("unexpected result: {:?}", other),
    }
}

#[test]
fn a_401_response_is_an_authentication_failure_with_the_body() {
    match Client::classify_response(401, "bad token".to_string()) {
        Err(ClientError::Authentication(m)) => assert_eq!(m, "bad token"),
        other => panic!("unexpected result: {:?}", other),
    }
}

#[test]
fn another_error_status_carries_status_and_body() {
    match Client::classify_response(500, "boom".to_string()) {
        Err(ClientError::ServerResponse {
            status_code,
            message,
        }) => {
            assert_eq!(status_code, 500);
            assert_eq!(message, "boom");
        }
        other => panic!("unexpected result: {:?}", other),
    }
}

#[test]
fn a_timeout_is_its_own_error_kind() {
    let c = client();
    assert_eq!(
        c.classify_transport_failure(true, "deadline".to_string()),
        ClientError::Timeout(1)
    );
    assert_eq!(
        c.classify_transport_failure(false, "connection reset".to_string()),
        ClientError::Transport("connection reset".to_string())
    );
}

#[test]
fn a_batch_response_parses_in_order() {
    let body = "[{\"ErrorCode\":0,\"Message\":\"OK\",\"MessageID\":\"id-1\",\
                \"SubmittedAt\":\"t1\",\"To\":\"a@example.com\"},\
                {\"ErrorCode\":406,\"Message\":\"Inactive\",\"MessageID\":\"id-2\",\
                \"SubmittedAt\":\"t2\",\"To\":\"b@example.com\"}]";
    let results = Client::classify_batch_response(200, body.to_string()).unwrap();
    assert_eq!(results.len(), 2);
    assert_eq!(results[0].message_id, "id-1");
    assert_eq!(results[0].error_code, 0);
    assert_eq!(results[1].message_id, "id-2");
    assert_eq!(results[1].error_code, 406);
}

#[test]
fn a_batch_response_that_is_not_an_array_fails() {
    match Client::classify_batch_response(200, "{}".to_string()) {
        Err(ClientError::Serialization(m)) => assert_eq!(m, "response is not a JSON array"),
        other => panic!("unexpected result: {:?}", other.map(|_| ())),
    }
    match Client::classify_batch_response(401, "no".to_string()) {
        Err(ClientError::Authentication(m)) => assert_eq!(m, "no"),
        other => panic!("unexpected result: {:?}", other.map(|_| ())),
    }
}
