//! Messages exchanged with the chat service: what a robot receives on the
//! robot topic, and the kinds of media it can upload.
use vstd::prelude::*;
use crate::json::{object_json, object_text, pairs_view};

verus! {

/// A user mentioned (@) in a message.
#[derive(Debug, Clone)]
pub struct User {
    pub dingtalk_id: String,
    pub staff_id: String,
}

/// One part of a rich-text message.
#[derive(Debug, Clone)]
pub enum RichText {
    Text { text: String },
    Picture { download_code: String, kind: String },
}

/// Content of a received message, by message type.
#[derive(Debug, Clone)]
pub enum MsgContent {
    Text { content: String },
    File { download_code: String, file_name: String },
    Picture { download_code: String, picture_download_code: String },
    RichText { rich_text: Vec<RichText> },
    Audio { duration: u32, download_code: String, recognition: String },
    Video { duration: u32, download_code: String, video_type: String },
    UnknownMsgType { unknown_msg_type: String },
}

/// A message pushed to a robot on the robot topic.
#[derive(Debug, Clone)]
pub struct RobotRecvMessage {
    pub msg_id: String,
    pub msgtype: String,
    pub content: MsgContent,
    pub conversation_id: String,
    /// "1" for a single chat, "2" for a group chat.
    pub conversation_type: String,
    pub conversation_title: String,
    pub at_users: Vec<User>,
    pub is_in_at_list: bool,
    pub chatbot_corp_id: String,
    pub chatbot_user_id: String,
    pub sender_id: String,
    pub sender_nick: String,
    pub sender_corp_id: String,
    pub sender_staff_id: String,
    pub session_webhook_expired_time: u64,
    pub session_webhook: String,
    pub is_admin: bool,
    pub create_at: u64,
}

/// Kind of media to upload.
#[derive(Debug, Clone, Copy, PartialEq, Eq, Structural)]
pub enum UploadType {
    Image,
    Voice,
    Video,
    File,
}

pub open spec fn upload_type_text(t: UploadType) -> Seq<char> {
    match t {
        UploadType::Image => "image"@,
        UploadType::Voice => "voice"@,
        UploadType::Video => "video"@,
        UploadType::File => "file"@,
    }
}

impl UploadType {
    /// The name the upload service expects in its `type` field.
    pub fn as_str(&self) -> (r: &'static str)
        ensures
            r@ == upload_type_text(*self),
    {
        match self {
            UploadType::Image => "image",
            UploadType::Voice => "voice",
            UploadType::Video => "video",
            UploadType::File => "file",
        }
    }

    /// The name the upload service expects, as an owned string.
    pub fn to_string(&self) -> (r: String)
        ensures
            r@ == upload_type_text(*self),
    {
        String::from_str(self.as_str())
    }
}

/// A message a robot can send, by template. Each field goes into the
/// template's parameters under the key the service expects.
#[derive(Debug, Clone)]
pub enum MessageTemplate {
    SampleText { content: String },
    SampleMarkdown { title: String, text: String },
    SampleImageMsg { photo_url: String },
    SampleLink { text: String, title: String, pic_url: String, message_url: String },
    SampleActionCard { title: String, text: String, single_title: String, single_url: String },
    SampleActionCard2 { title: String, text: String, action_title_1: String, action_url_1: String, action_title_2: String, action_url_2: String },
    SampleActionCard3 { title: String, text: String, action_title_1: String, action_url_1: String, action_title_2: String, action_url_2: String, action_title_3: String, action_url_3: String },
    SampleActionCard4 { title: String, text: String, action_title_1: String, action_url_1: String, action_title_2: String, action_url_2: String, action_title_3: String, action_url_3: String, action_title_4: String, action_url_4: String },
    SampleActionCard5 { title: String, text: String, action_title_1: String, action_url_1: String, action_title_2: String, action_url_2: String, action_title_3: String, action_url_3: String, action_title_4: String, action_url_4: String, action_title_5: String, action_url_5: String },
    SampleActionCard6 { title: String, text: String, button_title_1: String, button_url_1: String, button_title_2: String, button_url_2: String },
    SampleAudio { media_id: String, duration: String },
    SampleFile { media_id: String, file_name: String, file_type: String },
    SampleVideo { duration: String, video_media_id: String, video_type: String, pic_media_id: String },
}

/// The service's name for the template of `t`.
pub open spec fn template_key(t: MessageTemplate) -> Seq<char> {
    match t {
        MessageTemplate::SampleText { .. } => "sampleText"@,
        MessageTemplate::SampleMarkdown { .. } => "sampleMarkdown"@,
        MessageTemplate::SampleImageMsg { .. } => "sampleImageMsg"@,
        MessageTemplate::SampleLink { .. } => "sampleLink"@,
        MessageTemplate::SampleActionCard { .. } => "sampleActionCard"@,
        MessageTemplate::SampleActionCard2 { .. } => "sampleActionCard2"@,
        MessageTemplate::SampleActionCard3 { .. } => "sampleActionCard3"@,
        MessageTemplate::SampleActionCard4 { .. } => "sampleActionCard4"@,
        MessageTemplate::SampleActionCard5 { .. } => "sampleActionCard5"@,
        MessageTemplate::SampleActionCard6 { .. } => "sampleActionCard6"@,
        MessageTemplate::SampleAudio { .. } => "sampleAudio"@,
        MessageTemplate::SampleFile { .. } => "sampleFile"@,
        MessageTemplate::SampleVideo { .. } => "sampleVideo"@,
    }
}

/// The parameters of `t`: key and value of each field, in declaration order.
pub open spec fn template_fields(t: MessageTemplate) -> Seq<(Seq<char>, Seq<char>)> {
    match t {
        MessageTemplate::SampleText { content } => seq![("content"@, content@)],
        MessageTemplate::SampleMarkdown { title, text } => seq![("title"@, title@), ("text"@, text@)],
        MessageTemplate::SampleImageMsg { photo_url } => seq![("photoURL"@, photo_url@)],
        MessageTemplate::SampleLink { text, title, pic_url, message_url } => seq![("text"@, text@), ("title"@, title@), ("picUrl"@, pic_url@), ("messageUrl"@, message_url@)],
        MessageTemplate::SampleActionCard { title, text, single_title, single_url } => seq![("title"@, title@), ("text"@, text@), ("singleTitle"@, single_title@), ("singleURL"@, single_url@)],
        MessageTemplate::SampleActionCard2 { title, text, action_title_1, action_url_1, action_title_2, action_url_2 } => seq![("title"@, title@), ("text"@, text@), ("actionTitle1"@, action_title_1@), ("actionURL1"@, action_url_1@), ("actionTitle2"@, action_title_2@), ("actionURL2"@, action_url_2@)],
        MessageTemplate::SampleActionCard3 { title, text, action_title_1, action_url_1, action_title_2, action_url_2, action_title_3, action_url_3 } => seq![("title"@, title@), ("text"@, text@), ("actionTitle1"@, action_title_1@), ("actionURL1"@, action_url_1@), ("actionTitle2"@, action_title_2@), ("actionURL2"@, action_url_2@), ("actionTitle3"@, action_title_3@), ("actionURL3"@, action_url_3@)],
        MessageTemplate::SampleActionCard4 { title, text, action_title_1, action_url_1, action_title_2, action_url_2, action_title_3, action_url_3, action_title_4, action_url_4 } => seq![("title"@, title@), ("text"@, text@), ("actionTitle1"@, action_title_1@), ("actionURL1"@, action_url_1@), ("actionTitle2"@, action_title_2@), ("actionURL2"@, action_url_2@), ("actionTitle3"@, action_title_3@), ("actionURL3"@, action_url_3@), ("actionTitle4"@, action_title_4@), ("actionURL4"@, action_url_4@)],
        MessageTemplate::SampleActionCard5 { title, text, action_title_1, action_url_1, action_title_2, action_url_2, action_title_3, action_url_3, action_title_4, action_url_4, action_title_5, action_url_5 } => seq![("title"@, title@), ("text"@, text@), ("actionTitle1"@, action_title_1@), ("actionURL1"@, action_url_1@), ("actionTitle2"@, action_title_2@), ("actionURL2"@, action_url_2@), ("actionTitle3"@, action_title_3@), ("actionURL3"@, action_url_3@), ("actionTitle4"@, action_title_4@), ("actionURL4"@, action_url_4@), ("actionTitle5"@, action_title_5@), ("actionURL5"@, action_url_5@)],
        MessageTemplate::SampleActionCard6 { title, text, button_title_1, button_url_1, button_title_2, button_url_2 } => seq![("title"@, title@), ("text"@, text@), ("buttonTitle1"@, button_title_1@), ("buttonUrl1"@, button_url_1@), ("buttonTitle2"@, button_title_2@), ("buttonUrl2"@, button_url_2@)],
        MessageTemplate::SampleAudio { media_id, duration } => seq![("mediaId"@, media_id@), ("duration"@, duration@)],
        MessageTemplate::SampleFile { media_id, file_name, file_type } => seq![("mediaId"@, media_id@), ("fileName"@, file_name@), ("fileType"@, file_type@)],
        MessageTemplate::SampleVideo { duration, video_media_id, video_type, pic_media_id } => seq![("duration"@, duration@), ("videoMediaId"@, video_media_id@), ("videoType"@, video_type@), ("picMediaId"@, pic_media_id@)],
    }
}

impl MessageTemplate {
    /// The service's name for this template (`msgKey`).
    pub fn msg_key(&self) -> (r: &'static str)
        ensures
            r@ == template_key(*self),
    {
        match self {
            MessageTemplate::SampleText { .. } => "sampleText",
            MessageTemplate::SampleMarkdown { .. } => "sampleMarkdown",
            MessageTemplate::SampleImageMsg { .. } => "sampleImageMsg",
            MessageTemplate::SampleLink { .. } => "sampleLink",
            MessageTemplate::SampleActionCard { .. } => "sampleActionCard",
            MessageTemplate::SampleActionCard2 { .. } => "sampleActionCard2",
            MessageTemplate::SampleActionCard3 { .. } => "sampleActionCard3",
            MessageTemplate::SampleActionCard4 { .. } => "sampleActionCard4",
            MessageTemplate::SampleActionCard5 { .. } => "sampleActionCard5",
            MessageTemplate::SampleActionCard6 { .. } => "sampleActionCard6",
            MessageTemplate::SampleAudio { .. } => "sampleAudio",
            MessageTemplate::SampleFile { .. } => "sampleFile",
            MessageTemplate::SampleVideo { .. } => "sampleVideo",
        }
    }

    /// Key and value of each field, in declaration order.
    pub fn fields(&self) -> (r: Vec<(&'static str, String)>)
        ensures
            pairs_view(r@) == template_fields(*self),
    {
        let mut r: Vec<(&'static str, String)> = Vec::new();
        match self {
            MessageTemplate::SampleText { content } => {
                r.push(("content", content.clone()));
            },
            MessageTemplate::SampleMarkdown { title, text } => {
                r.push(("title", title.clone()));
                r.push(("text", text.clone()));
            },
            MessageTemplate::SampleImageMsg { photo_url } => {
                r.push(("photoURL", photo_url.clone()));
            },
            MessageTemplate::SampleLink { text, title, pic_url, message_url } => {
                r.push(("text", text.clone()));
                r.push(("title", title.clone()));
                r.push(("picUrl", pic_url.clone()));
                r.push(("messageUrl", message_url.clone()));
            },
            MessageTemplate::SampleActionCard { title, text, single_title, single_url } => {
                r.push(("title", title.clone()));
                r.push(("text", text.clone()));
                r.push(("singleTitle", single_title.clone()));
                r.push(("singleURL", single_url.clone()));
            },
            MessageTemplate::SampleActionCard2 { title, text, action_title_1, action_url_1, action_title_2, action_url_2 } => {
                r.push(("title", title.clone()));
                r.push(("text", text.clone()));
                r.push(("actionTitle1", action_title_1.clone()));
                r.push(("actionURL1", action_url_1.clone()));
                r.push(("actionTitle2", action_title_2.clone()));
                r.push(("actionURL2", action_url_2.clone()));
            },
            MessageTemplate::SampleActionCard3 { title, text, action_title_1, action_url_1, action_title_2, action_url_2, action_title_3, action_url_3 } => {
                r.push(("title", title.clone()));
                r.push(("text", text.clone()));
                r.push(("actionTitle1", action_title_1.clone()));
                r.push(("actionURL1", action_url_1.clone()));
                r.push(("actionTitle2", action_title_2.clone()));
                r.push(("actionURL2", action_url_2.clone()));
                r.push(("actionTitle3", action_title_3.clone()));
                r.push(("actionURL3", action_url_3.clone()));
            },
            MessageTemplate::SampleActionCard4 { title, text, action_title_1, action_url_1, action_title_2, action_url_2, action_title_3, action_url_3, action_title_4, action_url_4 } => {
                r.push(("title", title.clone()));
                r.push(("text", text.clone()));
                r.push(("actionTitle1", action_title_1.clone()));
                r.push(("actionURL1", action_url_1.clone()));
                r.push(("actionTitle2", action_title_2.clone()));
                r.push(("actionURL2", action_url_2.clone()));
                r.push(("actionTitle3", action_title_3.clone()));
                r.push(("actionURL3", action_url_3.clone()));
                r.push(("actionTitle4", action_title_4.clone()));
                r.push(("actionURL4", action_url_4.clone()));
            },
            MessageTemplate::SampleActionCard5 { title, text, action_title_1, action_url_1, action_title_2, action_url_2, action_title_3, action_url_3, action_title_4, action_url_4, action_title_5, action_url_5 } => {
                r.push(("title", title.clone()));
                r.push(("text", text.clone()));
                r.push(("actionTitle1", action_title_1.clone()));
                r.push(("actionURL1", action_url_1.clone()));
                r.push(("actionTitle2", action_title_2.clone()));
                r.push(("actionURL2", action_url_2.clone()));
                r.push(("actionTitle3", action_title_3.clone()));
                r.push(("actionURL3", action_url_3.clone()));
                r.push(("actionTitle4", action_title_4.clone()));
                r.push(("actionURL4", action_url_4.clone()));
                r.push(("actionTitle5", action_title_5.clone()));
                r.push(("actionURL5", action_url_5.clone()));
            },
            MessageTemplate::SampleActionCard6 { title, text, button_title_1, button_url_1, button_title_2, button_url_2 } => {
                r.push(("title", title.clone()));
                r.push(("text", text.clone()));
                r.push(("buttonTitle1", button_title_1.clone()));
                r.push(("buttonUrl1", button_url_1.clone()));
                r.push(("buttonTitle2", button_title_2.clone()));
                r.push(("buttonUrl2", button_url_2.clone()));
            },
            MessageTemplate::SampleAudio { media_id, duration } => {
                r.push(("mediaId", media_id.clone()));
                r.push(("duration", duration.clone()));
            },
            MessageTemplate::SampleFile { media_id, file_name, file_type } => {
                r.push(("mediaId", media_id.clone()));
                r.push(("fileName", file_name.clone()));
                r.push(("fileType", file_type.clone()));
            },
            MessageTemplate::SampleVideo { duration, video_media_id, video_type, pic_media_id } => {
                r.push(("duration", duration.clone()));
                r.push(("videoMediaId", video_media_id.clone()));
                r.push(("videoType", video_type.clone()));
                r.push(("picMediaId", pic_media_id.clone()));
            },
        }
        assert(pairs_view(r@) =~= template_fields(*self));
        r
    }

    /// The template's parameters as a JSON object (`msgParam`).
    pub fn msg_param(&self) -> (r: String)
        ensures
            r@ == object_text(template_fields(*self)),
    {
        let pairs = self.fields();
        object_json(&pairs)
    }
}

} // verus!
