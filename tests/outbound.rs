use dingtalk_stream::client::Client;
use dingtalk_stream::config::ClientError;
use dingtalk_stream::constant::{BATCH_SEND_URL, GROUP_SEND_URL};
use dingtalk_stream::message::MessageTemplate;
use dingtalk_stream::outbound::{
    download_request, download_url_result, upload_result, upload_url, RobotSendMessage,
    SendMessageTarget,
};

fn client() -> Client {
    Client::new("robot".to_string(), "secret".to_string())
}

#[test]
fn text_template_params() {
    let m = MessageTemplate::SampleText { content: "hi \"you\"".to_string() };
    assert_eq!(m.msg_key(), "sampleText");
    assert_eq!(m.msg_param(), r#"{"content":"hi \"you\""}"#);
}

#[test]
fn template_keys_follow_the_service() {
    let m = MessageTemplate::SampleImageMsg { photo_url: "http://p".to_string() };
    assert_eq!(m.msg_key(), "sampleImageMsg");
    assert_eq!(m.msg_param(), r#"{"photoURL":"http://p"}"#);
    let m = MessageTemplate::SampleActionCard2 {
        title: "t".to_string(),
        text: "x".to_string(),
        action_title_1: "a1".to_string(),
        action_url_1: "u1".to_string(),
        action_title_2: "a2".to_string(),
        action_url_2: "u2".to_string(),
    };
    assert_eq!(m.msg_key(), "sampleActionCard2");
    assert_eq!(
        m.msg_param(),
        r#"{"title":"t","text":"x","actionTitle1":"a1","actionURL1":"u1","actionTitle2":"a2","actionURL2":"u2"}"#
    );
    let m = MessageTemplate::SampleVideo {
        duration: "10".to_string(),
        video_media_id: "v".to_string(),
        video_type: "mp4".to_string(),
        pic_media_id: "p".to_string(),
    };
    assert_eq!(m.msg_key(), "sampleVideo");
    assert_eq!(
        m.msg_param(),
        r#"{"duration":"10","videoMediaId":"v","videoType":"mp4","picMediaId":"p"}"#
    );
}

#[test]
fn group_message_body() {
    let m = MessageTemplate::SampleMarkdown { title: "T".to_string(), text: "**b**".to_string() };
    let msg = RobotSendMessage::group(&client(), "cid".to_string(), &m);
    assert_eq!(msg.url(), GROUP_SEND_URL);
    assert_eq!(
        msg.to_json(),
        r#"{"robotCode":"robot","openConversationId":"cid","msgKey":"sampleMarkdown","msgParam":"{\"title\":\"T\",\"text\":\"**b**\"}"}"#
    );
}

#[test]
fn batch_and_single_message_bodies() {
    let m = MessageTemplate::SampleText { content: "x".to_string() };
    let msg = RobotSendMessage::batch(&client(), vec!["u1".to_string(), "u2".to_string()], &m);
    assert_eq!(msg.url(), BATCH_SEND_URL);
    assert_eq!(
        msg.to_json(),
        r#"{"robotCode":"robot","userIds":["u1","u2"],"msgKey":"sampleText","msgParam":"{\"content\":\"x\"}"}"#
    );
    let one = RobotSendMessage::single(&client(), "u9".to_string(), &m);
    match &one.target {
        SendMessageTarget::Batch { user_ids } => assert_eq!(user_ids, &vec!["u9".to_string()]),
        other => panic!("unexpected {:?}", other),
    }
    assert_eq!(one.url(), BATCH_SEND_URL);
}

#[test]
fn upload_answers() {
    assert_eq!(upload_url("tok"), "https://oapi.dingtalk.com/media/upload?access_token=tok");
    let ok = r#"{"errcode":0,"errmsg":"ok","media_id":"@m","created_at":1,"type":"image"}"#;
    assert_eq!(upload_result(200, ok).unwrap(), "@m");
    let rejected = r#"{"errcode":40004,"errmsg":"bad type"}"#;
    assert!(matches!(
        upload_result(200, rejected),
        Err(ClientError::UploadRejected { errcode: 40004, .. })
    ));
    assert!(matches!(upload_result(500, "x"), Err(ClientError::PostHttp { status: 500, .. })));
    assert!(matches!(upload_result(200, "{}"), Err(ClientError::PostMalformed)));
}

#[test]
fn download_exchange() {
    assert_eq!(
        download_request(&client(), "dc"),
        r#"{"downloadCode":"dc","robotCode":"robot"}"#
    );
    assert_eq!(
        download_url_result(200, r#"{"downloadUrl":"https://f"}"#).unwrap(),
        "https://f"
    );
    assert!(matches!(download_url_result(200, "{}"), Err(ClientError::PostMalformed)));
    assert!(matches!(download_url_result(404, ""), Err(ClientError::PostHttp { status: 404, .. })));
}
