use dingtalk_stream::dispatch::{on_down_stream, on_event, on_text, Effect, CALLBACK_ACK_DATA};
use dingtalk_stream::frame::{AckStatus, ClientDownStream, ClientUpStream, EventAckData};

const PING_FRAME: &str = r#"{"specVersion":"1.0","type":"SYSTEM","headers":{"contentType":"application/json","messageId":"m1","time":"1690000000000","topic":"ping"},"data":"PONG"}"#;

const CALLBACK_FRAME: &str = r#"{"specVersion":"1.0","type":"CALLBACK","headers":{"appId":"app","connectionId":"conn","contentType":"application/json","messageId":"m2","time":"1690000000000","topic":"/v1.0/im/bot/messages/get"},"data":"{\"msgId\":\"x\"}"}"#;

const EVENT_FRAME: &str = r#"{"specVersion":"1.0","type":"EVENT","headers":{"contentType":"application/json","messageId":"m3","time":"1690000000000","topic":"chat_update","eventType":"chat_update","eventId":"e1","eventCorpId":"corp","eventBornTime":"1690000000001","eventUnifiedAppId":"uapp"},"data":"{}"}"#;

#[test]
fn ping_frame_is_echoed() {
    let effects = on_text(PING_FRAME);
    assert_eq!(effects.len(), 1);
    match &effects[0] {
        Effect::Send(ack) => {
            assert_eq!(
                ack.to_json(),
                r#"{"code":200,"headers":{"contentType":"application/json","messageId":"m1"},"message":"OK","data":"PONG"}"#
            );
        }
        other => panic!("unexpected effect {:?}", other),
    }
}

#[test]
fn callback_frame_is_acked_then_published() {
    let effects = on_text(CALLBACK_FRAME);
    assert_eq!(effects.len(), 2);
    match &effects[0] {
        Effect::Send(ack) => {
            assert_eq!(ack.data, CALLBACK_ACK_DATA);
            assert_eq!(ack.headers.message_id, "m2");
            assert_eq!(
                ack.to_json(),
                r#"{"code":200,"headers":{"contentType":"application/json","messageId":"m2"},"message":"OK","data":"{\"response\":{}}"}"#
            );
        }
        other => panic!("unexpected effect {:?}", other),
    }
    match &effects[1] {
        Effect::Publish(frame) => {
            assert_eq!(frame.kind, "CALLBACK");
            assert_eq!(frame.headers.topic, "/v1.0/im/bot/messages/get");
            assert_eq!(frame.headers.app_id, "app");
            assert_eq!(frame.headers.connection_id, "conn");
            assert_eq!(frame.data, r#"{"msgId":"x"}"#);
        }
        other => panic!("unexpected effect {:?}", other),
    }
}

#[test]
fn event_frame_calls_handler_and_acks_its_answer() {
    let effects = on_text(EVENT_FRAME);
    assert_eq!(effects.len(), 1);
    match &effects[0] {
        Effect::CallEventHandler { message_id, event } => {
            assert_eq!(message_id, "m3");
            assert_eq!(event.event_type, "chat_update");
            assert_eq!(event.event_id, "e1");
            assert_eq!(event.event_corp_id, "corp");
            assert_eq!(event.event_born_time, "1690000000001");
            assert_eq!(event.event_unified_app_id, "uapp");
            let ack = on_event(message_id.clone(), &EventAckData::default());
            assert_eq!(ack.headers.message_id, "m3");
            assert_eq!(ack.data, r#"{"status":"SUCCESS","message":""}"#);
            let later = EventAckData { status: AckStatus::Later, message: "busy".to_string() };
            assert_eq!(on_event("m3".to_string(), &later).data, r#"{"status":"LATER","message":"busy"}"#);
        }
        other => panic!("unexpected effect {:?}", other),
    }
}

#[test]
fn informational_system_frames_need_no_answer() {
    for topic in ["CONNECTED", "REGISTERED", "disconnect", "KEEPALIVE", "other"] {
        let text = PING_FRAME.replace("\"ping\"", &format!("\"{}\"", topic));
        assert_eq!(on_text(&text).len(), 0, "topic {}", topic);
    }
}

#[test]
fn unknown_type_needs_no_answer() {
    let text = PING_FRAME.replace("\"SYSTEM\"", "\"OTHER\"");
    assert!(ClientDownStream::decode(&text).is_some());
    assert_eq!(on_text(&text).len(), 0);
}

#[test]
fn malformed_frames_are_dropped() {
    assert!(ClientDownStream::decode("not json").is_none());
    assert_eq!(on_text("not json").len(), 0);
    // the headers lack a message id
    let text = PING_FRAME.replace("\"messageId\":\"m1\",", "");
    assert!(ClientDownStream::decode(&text).is_none());
    assert_eq!(on_text(&text).len(), 0);
    // data is not a string
    let text = PING_FRAME.replace("\"data\":\"PONG\"", "\"data\":7");
    assert!(ClientDownStream::decode(&text).is_none());
}

#[test]
fn decoded_frame_keeps_every_field() {
    let f = ClientDownStream::decode(EVENT_FRAME).unwrap();
    assert_eq!(f.spec_version, "1.0");
    assert_eq!(f.kind, "EVENT");
    assert_eq!(f.headers.content_type, "application/json");
    assert_eq!(f.headers.time, "1690000000000");
    assert_eq!(f.headers.topic, "chat_update");
    assert_eq!(f.headers.app_id, "");
    assert_eq!(f.data, "{}");
    let effects = on_down_stream(&f);
    assert_eq!(effects.len(), 1);
}

#[test]
fn ack_escapes_its_strings() {
    let ack = ClientUpStream::new("a\"b".to_string(), "id\\1".to_string());
    assert_eq!(ack.code, 200);
    assert_eq!(ack.message, "OK");
    assert_eq!(ack.headers.content_type, "application/json");
    assert_eq!(
        ack.to_json(),
        r#"{"code":200,"headers":{"contentType":"application/json","messageId":"id\\1"},"message":"OK","data":"a\"b"}"#
    );
}

#[test]
fn headers_must_be_an_object() {
    let text = r#"{"specVersion":"1.0","type":"SYSTEM","headers":"ping","data":"PONG"}"#;
    assert!(ClientDownStream::decode(text).is_none());
}
