use backend::errors::APIError;
use backend::handlers::ws::{
    chat_payload, handle_socket_event, publish_message, room_channel, validate_token, ws_admission,
    ws_token_gate,
    SocketAction, SocketEvent, WsGate,
};
use backend::middleware::auth::{issue_token, Claims};

#[test]
fn websocket_token_check() {
    let token = issue_token(&Claims { sub: 3, exp: 4_000_000_000 }, "k");
    assert_eq!(validate_token(&token, None), Err(APIError::InternalServerError));
    assert_eq!(
        validate_token(&token, Some("k")),
        Ok(Some("{\"sub\":3,\"exp\":4000000000}".to_string()))
    );
    assert_eq!(validate_token(&token, Some("other")), Ok(None));
    assert_eq!(validate_token("garbage", Some("k")), Ok(None));
}

#[test]
fn websocket_admission() {
    assert_eq!(ws_admission(None, None), WsGate::Reject(APIError::NotFound));
    assert_eq!(ws_admission(Some(0), None), WsGate::Admit);
    assert_eq!(ws_admission(Some(1), None), WsGate::CheckMembership);
    assert_eq!(ws_admission(Some(1), Some(true)), WsGate::Admit);
    assert_eq!(ws_admission(Some(1), Some(false)), WsGate::Reject(APIError::Unauthorized));
}

#[test]
fn room_channels() {
    assert_eq!(room_channel(7), "room:7");
    assert_eq!(room_channel(-12), "room:-12");
    assert_ne!(room_channel(1), room_channel(11));
}

#[test]
fn chat_payload_is_sorted_json() {
    let p = chat_payload("ann", 4, "hi \"there\"", 7);
    assert_eq!(
        p,
        "{\"content\":\"hi \\\"there\\\"\",\"deleted\":0,\"room_id\":7,\"user_id\":4,\"username\":\"ann\"}"
    );
    let v: serde_json::Value = serde_json::from_str(&p).unwrap();
    assert_eq!(v["content"], "hi \"there\"");
    assert_eq!(v["deleted"], 0);
    assert_eq!(v["room_id"], 7);
    assert_eq!(v["user_id"], 4);
    assert_eq!(v["username"], "ann");
}

#[test]
fn publication_plan() {
    let p = publish_message("bob", "hello".to_string(), 9, 2);
    assert_eq!(p.channel, "room:9");
    assert_eq!(
        p.payload,
        "{\"content\":\"hello\",\"deleted\":0,\"room_id\":9,\"user_id\":2,\"username\":\"bob\"}"
    );
    assert_eq!(p.message.room_id, 9);
    assert_eq!(p.message.user_id, 2);
    assert_eq!(p.message.content, "hello");
}

#[test]
fn socket_steps() {
    assert!(matches!(handle_socket_event(SocketEvent::ClientText("x".to_string())), SocketAction::Publish(t) if t == "x"));
    assert!(matches!(handle_socket_event(SocketEvent::ChannelPayload("y".to_string())), SocketAction::Forward(t) if t == "y"));
    assert!(matches!(handle_socket_event(SocketEvent::PublishFailed), SocketAction::Close));
}

#[test]
fn websocket_token_gate() {
    assert_eq!(ws_token_gate(true), WsGate::LookUpRoom);
    assert_eq!(ws_token_gate(false), WsGate::Deny);
}

#[test]
fn chat_payload_reads_back_any_text() {
    let content = "line\nbreak \u{1} tab\t quote\" back\\ é ✓ \u{7f}";
    let username = "na\"me\u{1f}";
    let p = chat_payload(username, -3, content, 2147483647);
    let v: serde_json::Value = serde_json::from_str(&p).unwrap();
    assert_eq!(v.as_object().unwrap().len(), 5);
    assert_eq!(v["content"], content);
    assert_eq!(v["username"], username);
    assert_eq!(v["user_id"], -3);
    assert_eq!(v["room_id"], 2147483647);
    assert_eq!(v["deleted"], 0);
}
