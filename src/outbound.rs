//! Requests the client sends over REST: robot messages, media uploads and
//! file downloads. This module builds their URLs and bodies and reads their
//! answers; the runtime carries them out.
use vstd::prelude::*;
use crate::client::Client;
use crate::config::{is_success_status, ClientError, U32_MAX};
use crate::constant::{BATCH_SEND_URL, GROUP_SEND_URL, UPLOAD_URL};
use crate::json::{
    json_quoted, json_str_member, json_u64_member, object_json, object_text, pairs_view, quote,
    str_member, u64_member,
};
use crate::message::{template_fields, template_key, MessageTemplate};

verus! {

/// Who a robot message goes to.
#[derive(Debug, Clone)]
pub enum SendMessageTarget {
    Group { open_conversation_id: String },
    Batch { user_ids: Vec<String> },
}

/// A robot message ready to be sent.
#[derive(Debug, Clone)]
pub struct RobotSendMessage {
    pub robot_code: String,
    pub target: SendMessageTarget,
    pub msg_key: String,
    pub msg_param: String,
}

/// The strings as JSON array items, separated by commas.
pub open spec fn string_items(s: Seq<String>) -> Seq<char>
    decreases s.len(),
{
    if s.len() == 0 {
        Seq::empty()
    } else if s.len() == 1 {
        json_quoted(s[0]@)
    } else {
        string_items(s.drop_last()) + ","@ + json_quoted(s.last()@)
    }
}

pub open spec fn target_text(t: SendMessageTarget) -> Seq<char> {
    match t {
        SendMessageTarget::Group { open_conversation_id } => ",\"openConversationId\":"@
            + json_quoted(open_conversation_id@),
        SendMessageTarget::Batch { user_ids } => ",\"userIds\":"@ + "["@
            + string_items(user_ids@) + "]"@,
    }
}

/// The request body of a robot message.
pub open spec fn send_text(m: RobotSendMessage) -> Seq<char> {
    "{\"robotCode\":"@ + json_quoted(m.robot_code@) + target_text(m.target) + ",\"msgKey\":"@
        + json_quoted(m.msg_key@) + ",\"msgParam\":"@ + json_quoted(m.msg_param@) + "}"@
}

/// `m` sends `message` from the robot of `client`.
pub open spec fn carries(m: RobotSendMessage, client: Client, message: MessageTemplate) -> bool {
    &&& m.robot_code == client.config.client_id
    &&& m.msg_key@ == template_key(message)
    &&& m.msg_param@ == object_text(template_fields(message))
}

/// An upload answer with an error code and message in range.
pub open spec fn upload_body_wellformed(body: Seq<char>) -> bool {
    &&& json_u64_member(body, "errcode"@) matches Some(e) && e <= U32_MAX
    &&& json_str_member(body, "errmsg"@) is Some
}

/// The media id of an accepted upload; empty when the answer gives none.
pub open spec fn upload_media_id(body: Seq<char>) -> Seq<char> {
    match json_str_member(body, "media_id"@) {
        Some(s) => s,
        None => Seq::empty(),
    }
}

pub open spec fn upload_url_text(access_token: Seq<char>) -> Seq<char> {
    UPLOAD_URL@ + "?access_token="@ + access_token
}

pub open spec fn download_pairs(download_code: Seq<char>, robot_code: Seq<char>) -> Seq<(Seq<char>, Seq<char>)> {
    seq![("downloadCode"@, download_code), ("robotCode"@, robot_code)]
}

fn string_array(items: &Vec<String>) -> (r: String)
    ensures
        r@ == "["@ + string_items(items@) + "]"@,
{
    let mut acc = String::new();
    let n = items.len();
    let mut i: usize = 0;
    while i < n
        invariant
            n == items@.len(),
            i <= n,
            acc@ == string_items(items@.subrange(0, i as int)),
        decreases n - i,
    {
        let q = quote(items[i].as_str());
        if i > 0 {
            acc.append(",");
        }
        acc.append(q.as_str());
        proof {
            let next = items@.subrange(0, i + 1);
            assert(next.drop_last() =~= items@.subrange(0, i as int));
            assert(next.last() == items@[i as int]);
            if i == 0 {
                assert(next.len() == 1);
                assert(next[0] == items@[0]);
                assert(acc@ =~= string_items(next));
            }
        }
        i = i + 1;
    }
    assert(items@.subrange(0, n as int) =~= items@);
    let mut s = String::from_str("[");
    s.append(acc.as_str());
    s.append("]");
    s
}

fn target_json(t: &SendMessageTarget) -> (r: String)
    ensures
        r@ == target_text(*t),
{
    match t {
        SendMessageTarget::Group { open_conversation_id } => {
            let mut s = String::from_str(",\"openConversationId\":");
            let id = quote(open_conversation_id.as_str());
            s.append(id.as_str());
            s
        },
        SendMessageTarget::Batch { user_ids } => {
            let mut s = String::from_str(",\"userIds\":");
            let ids = string_array(user_ids);
            s.append(ids.as_str());
            s
        },
    }
}

impl RobotSendMessage {
    /// A message to the group conversation `conversation_id`.
    pub fn group(client: &Client, conversation_id: String, message: &MessageTemplate) -> (r: RobotSendMessage)
        ensures
            carries(r, *client, *message),
            r.target == (SendMessageTarget::Group { open_conversation_id: conversation_id }),
    {
        RobotSendMessage {
            robot_code: client.config.client_id.clone(),
            target: SendMessageTarget::Group { open_conversation_id: conversation_id },
            msg_key: String::from_str(message.msg_key()),
            msg_param: message.msg_param(),
        }
    }

    /// A one-on-one message to each of `user_ids`.
    pub fn batch(client: &Client, user_ids: Vec<String>, message: &MessageTemplate) -> (r: RobotSendMessage)
        ensures
            carries(r, *client, *message),
            r.target == (SendMessageTarget::Batch { user_ids }),
    {
        RobotSendMessage {
            robot_code: client.config.client_id.clone(),
            target: SendMessageTarget::Batch { user_ids },
            msg_key: String::from_str(message.msg_key()),
            msg_param: message.msg_param(),
        }
    }

    /// A one-on-one message to `user_id`.
    pub fn single(client: &Client, user_id: String, message: &MessageTemplate) -> (r: RobotSendMessage)
        ensures
            carries(r, *client, *message),
            r.target matches SendMessageTarget::Batch { user_ids } && user_ids@ == seq![user_id],
    {
        let mut user_ids: Vec<String> = Vec::new();
        user_ids.push(user_id);
        RobotSendMessage::batch(client, user_ids, message)
    }

    /// Where this message is posted.
    pub fn url(&self) -> (r: &'static str)
        ensures
            self.target is Group ==> r@ == GROUP_SEND_URL@,
            self.target is Batch ==> r@ == BATCH_SEND_URL@,
    {
        match self.target {
            SendMessageTarget::Group { .. } => GROUP_SEND_URL,
            SendMessageTarget::Batch { .. } => BATCH_SEND_URL,
        }
    }

    /// The JSON body of the request.
    pub fn to_json(&self) -> (r: String)
        ensures
            r@ == send_text(*self),
    {
        let mut s = String::from_str("{\"robotCode\":");
        let rc = quote(self.robot_code.as_str());
        s.append(rc.as_str());
        let t = target_json(&self.target);
        s.append(t.as_str());
        s.append(",\"msgKey\":");
        let k = quote(self.msg_key.as_str());
        s.append(k.as_str());
        s.append(",\"msgParam\":");
        let p = quote(self.msg_param.as_str());
        s.append(p.as_str());
        s.append("}");
        s
    }
}

/// The URL media is uploaded to, authenticated by `access_token`.
pub fn upload_url(access_token: &str) -> (r: String)
    ensures
        r@ == upload_url_text(access_token@),
{
    let mut s = String::from_str(UPLOAD_URL);
    s.append("?access_token=");
    s.append(access_token);
    s
}

/// The media id from the upload service's answer (`status`, `body`).
pub fn upload_result(status: u16, body: &str) -> (r: Result<String, ClientError>)
    ensures
        !is_success_status(status) ==> (r matches Err(ClientError::PostHttp { status: s, body: b })
            && s == status && b@ == body@),
        is_success_status(status) && !upload_body_wellformed(body@) ==> (r matches Err(ClientError::PostMalformed)),
        is_success_status(status) && upload_body_wellformed(body@) && json_u64_member(body@, "errcode"@) != Some(0u64)
            ==> (r matches Err(ClientError::UploadRejected { errcode: e, errmsg: m })
            && Some(e) == json_u64_member(body@, "errcode"@) && Some(m@) == json_str_member(body@, "errmsg"@)),
        is_success_status(status) && upload_body_wellformed(body@) && json_u64_member(body@, "errcode"@) == Some(0u64)
            ==> (r matches Ok(id) && id@ == upload_media_id(body@)),
{
    if !(200 <= status && status <= 299) {
        return Err(ClientError::PostHttp { status, body: String::from_str(body) });
    }
    match (u64_member(body, "errcode"), str_member(body, "errmsg")) {
        (Some(errcode), Some(errmsg)) => {
            if errcode > U32_MAX {
                Err(ClientError::PostMalformed)
            } else if errcode != 0 {
                Err(ClientError::UploadRejected { errcode, errmsg })
            } else {
                match str_member(body, "media_id") {
                    Some(id) => Ok(id),
                    None => Ok(String::new()),
                }
            }
        },
        _ => Err(ClientError::PostMalformed),
    }
}

/// The body that exchanges `download_code` for a download URL.
pub fn download_request(client: &Client, download_code: &str) -> (r: String)
    ensures
        r@ == object_text(download_pairs(download_code@, client.config.client_id@)),
{
    let mut pairs: Vec<(&'static str, String)> = Vec::new();
    pairs.push(("downloadCode", String::from_str(download_code)));
    pairs.push(("robotCode", client.config.client_id.clone()));
    assert(pairs_view(pairs@) =~= download_pairs(download_code@, client.config.client_id@));
    object_json(&pairs)
}

/// The download URL from the service's answer (`status`, `body`).
pub fn download_url_result(status: u16, body: &str) -> (r: Result<String, ClientError>)
    ensures
        !is_success_status(status) ==> (r matches Err(ClientError::PostHttp { status: s, body: b })
            && s == status && b@ == body@),
        is_success_status(status) && json_str_member(body@, "downloadUrl"@) is None ==> (r matches Err(ClientError::PostMalformed)),
        is_success_status(status) && json_str_member(body@, "downloadUrl"@) is Some ==> (r matches Ok(u)
            && Some(u@) == json_str_member(body@, "downloadUrl"@)),
{
    if !(200 <= status && status <= 299) {
        return Err(ClientError::PostHttp { status, body: String::from_str(body) });
    }
    match str_member(body, "downloadUrl") {
        Some(u) => Ok(u),
        None => Err(ClientError::PostMalformed),
    }
}

} // verus!
