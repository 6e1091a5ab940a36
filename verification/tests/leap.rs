use button_bridge::leap::{same_text, Body, CommuniqueType, Header, Message};

fn response(kind: CommuniqueType, url: &str, body: Option<Body>) -> Message {
    Message {
        communique_type: kind,
        header: Header { url: url.to_string(), status_code: Some("200 OK".to_string()) },
        body,
    }
}

#[test]
fn request_has_no_status_and_no_body() {
    let request = Message::new(CommuniqueType::ReadRequest, "/device".to_string());
    assert_eq!(request.communique_type, CommuniqueType::ReadRequest);
    assert_eq!(request.header.url, "/device");
    assert_eq!(request.header.status_code, None);
    assert_eq!(request.body, None);
    let request = Message::new(CommuniqueType::SubscribeRequest, "/button/1/status/event".to_string());
    assert_eq!(request.communique_type, CommuniqueType::SubscribeRequest);
    assert_eq!(request.header.url, "/button/1/status/event");
}

#[test]
fn same_text_compares_whole_texts() {
    assert!(same_text(&"200 OK".to_string(), "200 OK"));
    assert!(same_text(&String::new(), ""));
    assert!(!same_text(&"200 OK".to_string(), "200 ok"));
    assert!(!same_text(&"200 OK".to_string(), "200 O"));
    assert!(!same_text(&"200 O".to_string(), "200 OK"));
    assert!(!same_text(&"".to_string(), "x"));
}

#[test]
fn device_heard_is_a_liveness_notice() {
    let notice = response(CommuniqueType::ReadResponse, "/device/status/deviceheard", None);
    assert!(notice.is_liveness_notice());
    let notice = response(CommuniqueType::Other, "/device/status/deviceheard", Some(Body::Other));
    assert!(notice.is_liveness_notice());
}

#[test]
fn other_paths_are_no_liveness_notice() {
    for url in ["/device", "/device/status", "/device/status/deviceheard/", "", "/button/1/status/event"] {
        assert!(!response(CommuniqueType::ReadResponse, url, None).is_liveness_notice());
    }
}

#[test]
fn read_response_with_body_answers_its_path() {
    let answer = response(CommuniqueType::ReadResponse, "/device", Some(Body::Other));
    assert!(answer.answers("/device"));
    assert!(!answer.answers("/device/2/buttongroup"));
    assert!(!answer.answers(""));
}

#[test]
fn response_without_body_answers_nothing() {
    let answer = response(CommuniqueType::ReadResponse, "/device", None);
    assert!(!answer.answers("/device"));
}

#[test]
fn other_kinds_answer_nothing() {
    for kind in [
        CommuniqueType::ReadRequest,
        CommuniqueType::SubscribeRequest,
        CommuniqueType::UpdateResponse,
        CommuniqueType::Other,
    ] {
        assert!(!response(kind, "/device", Some(Body::Other)).answers("/device"));
    }
}
