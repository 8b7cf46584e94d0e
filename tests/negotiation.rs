use dingtalk_stream::client::Client;
use dingtalk_stream::config::{
    endpoint_from_response, ClientConfig, ClientError, Subscription, SubscriptionKind, TokenStep,
    DEFAULT_HEARTBEAT_MS, DEFAULT_RECONNECT_MS,
};
use dingtalk_stream::constant::{GET_TOKEN_URL, TOPIC_CARD, TOPIC_ROBOT};
use dingtalk_stream::message::UploadType;

const T0: i64 = 1_700_000_000_000;

fn config() -> ClientConfig {
    ClientConfig::with_time("id".to_string(), "secret".to_string(), T0)
}

#[test]
fn token_is_cached_for_its_lifetime() {
    let mut c = config();
    let body = r#"{"errcode":0,"accessToken":"T1","errmsg":"","expiresIn":7200}"#;
    assert_eq!(c.apply_token_response(200, body, T0).unwrap(), "T1");
    assert_eq!(c.access_token, "T1");
    assert_eq!(c.token_expires_in, T0 + 7_200_000);
    match c.token_step(T0 + 10_000) {
        TokenStep::Cached(t) => assert_eq!(t, "T1"),
        TokenStep::Fetch(u) => panic!("unexpected fetch of {}", u),
    }
    match c.token_step(T0 + 7_200_000) {
        TokenStep::Cached(t) => assert_eq!(t, "T1"),
        TokenStep::Fetch(u) => panic!("unexpected fetch of {}", u),
    }
}

#[test]
fn stale_token_is_fetched_once_and_replaced() {
    let mut c = config();
    match c.token_step(T0 + 1) {
        TokenStep::Fetch(u) => {
            assert_eq!(u, format!("{}?appkey=id&appsecret=secret", GET_TOKEN_URL));
        }
        TokenStep::Cached(_) => panic!("stale token served"),
    }
    let body = r#"{"errcode":0,"accessToken":"T2","errmsg":"","expiresIn":60}"#;
    assert_eq!(c.apply_token_response(200, body, T0 + 1).unwrap(), "T2");
    assert_eq!(c.token_expires_in, T0 + 1 + 60_000);
    assert!(matches!(c.token_step(T0 + 2), TokenStep::Cached(ref t) if t == "T2"));
    assert!(matches!(c.token_step(T0 + 60_002), TokenStep::Fetch(_)));
}

#[test]
fn token_failures_leave_the_cache_alone() {
    let mut c = config();
    let rejected = r#"{"errcode":40001,"accessToken":"","errmsg":"bad secret","expiresIn":0}"#;
    match c.apply_token_response(200, rejected, T0) {
        Err(ClientError::AuthRejected { errcode, errmsg }) => {
            assert_eq!(errcode, 40001);
            assert_eq!(errmsg, "bad secret");
        }
        other => panic!("unexpected {:?}", other),
    }
    match c.apply_token_response(503, "busy", T0) {
        Err(ClientError::AuthHttp { status, body }) => {
            assert_eq!(status, 503);
            assert_eq!(body, "busy");
        }
        other => panic!("unexpected {:?}", other),
    }
    let missing = r#"{"errcode":0,"errmsg":"","expiresIn":7200}"#;
    assert!(matches!(c.apply_token_response(200, missing, T0), Err(ClientError::AuthMalformed)));
    let too_long = r#"{"errcode":0,"accessToken":"T","errmsg":"","expiresIn":4294967296}"#;
    assert!(matches!(c.apply_token_response(200, too_long, T0), Err(ClientError::AuthMalformed)));
    let negative = r#"{"errcode":0,"accessToken":"T","errmsg":"","expiresIn":-1}"#;
    assert!(matches!(c.apply_token_response(200, negative, T0), Err(ClientError::AuthMalformed)));
    assert_eq!(c.access_token, "");
    assert_eq!(c.token_expires_in, T0);
}

#[test]
fn endpoint_joins_ticket() {
    let body = r#"{"endpoint":"wss://example.test/connect","ticket":"abc"}"#;
    assert_eq!(
        endpoint_from_response(200, body).unwrap(),
        "wss://example.test/connect?ticket=abc"
    );
    assert!(matches!(
        endpoint_from_response(200, r#"{"endpoint":"wss://x"}"#),
        Err(ClientError::NegotiationMalformed)
    ));
    assert!(matches!(
        endpoint_from_response(401, "denied"),
        Err(ClientError::NegotiationHttp { status: 401, .. })
    ));
}

#[test]
fn defaults_subscribe_to_wildcards() {
    let c = config();
    assert_eq!(c.heartbeat_interval, DEFAULT_HEARTBEAT_MS);
    assert_eq!(c.heartbeat_interval, 8000);
    assert_eq!(c.reconnect_interval, DEFAULT_RECONNECT_MS);
    assert_eq!(c.reconnect_interval, 1000);
    assert_eq!(c.subscriptions.len(), 2);
    assert_eq!(c.subscriptions[0].kind, SubscriptionKind::Event);
    assert_eq!(c.subscriptions[0].topic, "*");
    assert_eq!(c.subscriptions[1].kind, SubscriptionKind::System);
    assert_eq!(
        c.gateway_body(),
        r#"{"clientId":"id","clientSecret":"secret","ua":"","subscriptions":[{"type":"EVENT","topic":"*"},{"type":"SYSTEM","topic":"*"}]}"#
    );
}

#[test]
fn callback_topic_is_registered_once() {
    let mut client = Client::new("id".to_string(), "secret".to_string()).ua("bot/1".to_string());
    assert!(client.register_callback_listener(TOPIC_ROBOT));
    assert!(!client.register_callback_listener(TOPIC_ROBOT));
    assert!(client.register_callback_listener(TOPIC_CARD));
    let subs = &client.config.subscriptions;
    assert_eq!(subs.len(), 4);
    assert_eq!(subs[2].kind, SubscriptionKind::Callback);
    assert_eq!(subs[2].topic, TOPIC_ROBOT);
    assert_eq!(subs[3].topic, TOPIC_CARD);
    assert!(client.config.has_callback(TOPIC_ROBOT));
    assert!(!client.config.has_callback("*"));
    assert_eq!(
        client.config.gateway_body(),
        r#"{"clientId":"id","clientSecret":"secret","ua":"bot/1","subscriptions":[{"type":"EVENT","topic":"*"},{"type":"SYSTEM","topic":"*"},{"type":"CALLBACK","topic":"/v1.0/im/bot/messages/get"},{"type":"CALLBACK","topic":"/v1.0/card/instances/callback"}]}"#
    );
}

#[test]
fn knobs_are_set() {
    let client = Client::new("id".to_string(), "secret".to_string()).keep_alive(0).reconnect(5000);
    assert_eq!(client.config.heartbeat_interval, 0);
    assert_eq!(client.config.reconnect_interval, 5000);
    assert_eq!(client.config.client_id, "id");
}

#[test]
fn subscription_json() {
    let s = Subscription { kind: SubscriptionKind::Callback, topic: "t\"1".to_string() };
    assert_eq!(s.to_json(), r#"{"type":"CALLBACK","topic":"t\"1"}"#);
    assert_eq!(SubscriptionKind::Event.as_str(), "EVENT");
}

#[test]
fn upload_type_names() {
    assert_eq!(UploadType::Image.to_string(), "image");
    assert_eq!(UploadType::Voice.as_str(), "voice");
    assert_eq!(UploadType::Video.as_str(), "video");
    assert_eq!(UploadType::File.as_str(), "file");
}
