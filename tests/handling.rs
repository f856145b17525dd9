use kafka_gateway::handler::{on_body, on_publish_result, on_request, Message, Response, Step};

fn response(step: Step) -> Response {
    match step {
        Step::Respond(r) => r,
        Step::ReadBody => panic!("expected a response, got a body read"),
        Step::Publish(_) => panic!("expected a response, got a publish"),
    }
}

fn message(step: Step) -> Message {
    match step {
        Step::Publish(m) => m,
        Step::ReadBody => panic!("expected a publish, got a body read"),
        Step::Respond(r) => panic!("expected a publish, got status {}", r.status),
    }
}

#[test]
fn post_to_root_reads_the_body() {
    assert!(matches!(on_request("POST", "/"), Step::ReadBody));
}

#[test]
fn get_to_root_is_not_found() {
    let r = response(on_request("GET", "/"));
    assert_eq!(r.status, 404);
}

#[test]
fn post_elsewhere_is_not_found() {
    assert_eq!(response(on_request("POST", "/other")).status, 404);
    assert_eq!(response(on_request("POST", "")).status, 404);
    assert_eq!(response(on_request("post", "/")).status, 404);
}

#[test]
fn json_object_is_published_then_created() {
    let m = message(on_body(Ok(b"{\"a\":1}".to_vec())));
    assert_eq!(m.topic, "before-processor-topic");
    let sent: serde_json::Value = serde_json::from_str(&m.payload).unwrap();
    let expected: serde_json::Value = serde_json::from_str("{\"a\":1}").unwrap();
    assert_eq!(sent, expected);
    let r = on_publish_result(Ok(()));
    assert_eq!(r.status, 201);
    assert_eq!(r.body, "Message sent to Kafka successfully");
}

#[test]
fn payload_is_reserialised() {
    let m = message(on_body(Ok(b"  { \"a\" : [1, 2,\n 3] }  ".to_vec())));
    assert_eq!(m.payload, "{\"a\":[1,2,3]}");
}

#[test]
fn scalars_and_arrays_are_published() {
    for body in ["42", "null", "[1,\"x\"]", "\"text\"", "true"] {
        let m = message(on_body(Ok(body.as_bytes().to_vec())));
        assert_eq!(m.payload, body);
    }
}

#[test]
fn invalid_json_is_bad_request() {
    let r = response(on_body(Ok(b"not json".to_vec())));
    assert_eq!(r.status, 400);
    assert!(r.body.starts_with("Invalid JSON: "));
    assert!(r.body.len() > "Invalid JSON: ".len());
}

#[test]
fn empty_body_is_bad_request() {
    assert_eq!(response(on_body(Ok(Vec::new()))).status, 400);
}

#[test]
fn non_utf8_body_is_bad_request() {
    let r = response(on_body(Ok(vec![0x7b, 0xff, 0x7d])));
    assert_eq!(r.status, 400);
    assert_eq!(r.body, "Request body is not valid UTF-8");
}

#[test]
fn unreadable_body_is_bad_request() {
    let r = response(on_body(Err("connection reset".to_string())));
    assert_eq!(r.status, 400);
    assert_eq!(r.body, "Could not read request body: connection reset");
}

#[test]
fn failed_publish_is_server_error() {
    let r = on_publish_result(Err("broker transport failure".to_string()));
    assert_eq!(r.status, 500);
    assert_eq!(r.body, "Error sending message to Kafka: broker transport failure");
}

#[test]
fn failures_do_not_affect_later_requests() {
    let first = message(on_body(Ok(b"[1]".to_vec())));
    assert_eq!(on_publish_result(Err(first.payload)).status, 500);
    let second = message(on_body(Ok(b"[2]".to_vec())));
    assert_eq!(second.payload, "[2]");
    assert_eq!(on_publish_result(Ok(())).status, 201);
}

#[test]
fn invalid_json_body_carries_the_reader_description() {
    let r = response(on_body(Ok(b"not json".to_vec())));
    let err = serde_json::from_str::<serde_json::Value>("not json").unwrap_err();
    assert_eq!(r.body, format!("Invalid JSON: {}", err));
}

#[test]
fn each_body_publishes_its_own_document() {
    let a = message(on_body(Ok(b"{\"a\": 1}".to_vec())));
    let b = message(on_body(Ok(b"{\"b\": 2}".to_vec())));
    assert_eq!(a.payload, "{\"a\":1}");
    assert_eq!(b.payload, "{\"b\":2}");
}
