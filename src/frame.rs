//! Frames exchanged over the stream session: the downstream frames the server
//! pushes, and the upstream acknowledgements the client answers with.
use vstd::prelude::*;
use crate::json::{
    decimal, decimal_of, json_member_text, json_quoted, json_str_member, member_text, quote,
    str_member,
};

verus! {

/// Event fields carried in the headers of an EVENT frame.
#[derive(Debug, Default, Clone)]
pub struct EventData {
    pub event_type: String,
    pub event_born_time: String,
    pub event_id: String,
    pub event_corp_id: String,
    pub event_unified_app_id: String,
}

/// Headers of a downstream frame.
#[derive(Debug, Default, Clone)]
pub struct StreamDownHeaders {
    pub app_id: String,
    pub connection_id: String,
    pub content_type: String,
    pub message_id: String,
    pub time: String,
    pub topic: String,
    pub event: EventData,
}

/// A frame pushed by the server; `kind` is its `type` member
/// (SYSTEM, EVENT or CALLBACK).
#[derive(Debug, Default, Clone)]
pub struct ClientDownStream {
    pub spec_version: String,
    pub kind: String,
    pub headers: StreamDownHeaders,
    pub data: String,
}

/// Headers of an upstream acknowledgement.
#[derive(Debug, Default, Clone)]
pub struct StreamUpHeader {
    pub content_type: String,
    pub message_id: String,
}

/// An acknowledgement sent to the server for a downstream frame.
#[derive(Debug, Default, Clone)]
pub struct ClientUpStream {
    pub code: u32,
    pub headers: StreamUpHeader,
    pub message: String,
    pub data: String,
}

/// Outcome reported by the event handler.
#[derive(Debug, Clone, Copy, PartialEq, Eq, Structural)]
pub enum AckStatus {
    Success,
    Later,
}

/// What the event handler answers for an EVENT frame.
#[derive(Debug, Clone)]
pub struct EventAckData {
    pub status: AckStatus,
    pub message: String,
}

/// The string member `key` of `text`, or the empty string when it is absent.
pub open spec fn str_member_or_empty(text: Seq<char>, key: Seq<char>) -> Seq<char> {
    match json_str_member(text, key) {
        Some(s) => s,
        None => Seq::empty(),
    }
}

/// The headers object of a downstream frame text has every member it needs.
pub open spec fn headers_decodable(h: Seq<char>) -> bool {
    &&& json_str_member(h, "contentType"@) is Some
    &&& json_str_member(h, "messageId"@) is Some
    &&& json_str_member(h, "time"@) is Some
    &&& json_str_member(h, "topic"@) is Some
}

/// `text` is a downstream frame: a JSON object with string members
/// `specVersion`, `type` and `data`, and a `headers` object with string members
/// `contentType`, `messageId`, `time` and `topic`.
pub open spec fn frame_decodable(text: Seq<char>) -> bool {
    &&& json_str_member(text, "specVersion"@) is Some
    &&& json_str_member(text, "type"@) is Some
    &&& json_str_member(text, "data"@) is Some
    &&& json_member_text(text, "headers"@) matches Some(h) && headers_decodable(h)
}

pub open spec fn event_decodes_to(h: Seq<char>, e: EventData) -> bool {
    &&& e.event_type@ == str_member_or_empty(h, "eventType"@)
    &&& e.event_born_time@ == str_member_or_empty(h, "eventBornTime"@)
    &&& e.event_id@ == str_member_or_empty(h, "eventId"@)
    &&& e.event_corp_id@ == str_member_or_empty(h, "eventCorpId"@)
    &&& e.event_unified_app_id@ == str_member_or_empty(h, "eventUnifiedAppId"@)
}

pub open spec fn headers_decode_to(h: Seq<char>, d: StreamDownHeaders) -> bool {
    &&& d.app_id@ == str_member_or_empty(h, "appId"@)
    &&& d.connection_id@ == str_member_or_empty(h, "connectionId"@)
    &&& json_str_member(h, "contentType"@) == Some(d.content_type@)
    &&& json_str_member(h, "messageId"@) == Some(d.message_id@)
    &&& json_str_member(h, "time"@) == Some(d.time@)
    &&& json_str_member(h, "topic"@) == Some(d.topic@)
    &&& event_decodes_to(h, d.event)
}

/// `f` holds exactly what the frame text `text` writes.
pub open spec fn frame_decodes_to(text: Seq<char>, f: ClientDownStream) -> bool {
    &&& json_str_member(text, "specVersion"@) == Some(f.spec_version@)
    &&& json_str_member(text, "type"@) == Some(f.kind@)
    &&& json_str_member(text, "data"@) == Some(f.data@)
    &&& json_member_text(text, "headers"@) matches Some(h) && headers_decode_to(h, f.headers)
}

/// The wire text of an acknowledgement, members in the order the protocol
/// writes them.
pub open spec fn up_stream_text(a: ClientUpStream) -> Seq<char> {
    "{\"code\":"@ + decimal_of(a.code as nat) + ",\"headers\":{\"contentType\":"@
        + json_quoted(a.headers.content_type@) + ",\"messageId\":"@
        + json_quoted(a.headers.message_id@) + "},\"message\":"@ + json_quoted(a.message@)
        + ",\"data\":"@ + json_quoted(a.data@) + "}"@
}

pub open spec fn ack_status_text(s: AckStatus) -> Seq<char> {
    match s {
        AckStatus::Success => "SUCCESS"@,
        AckStatus::Later => "LATER"@,
    }
}

/// The wire text of an event handler's answer.
pub open spec fn event_ack_text(a: EventAckData) -> Seq<char> {
    "{\"status\":"@ + json_quoted(ack_status_text(a.status)) + ",\"message\":"@
        + json_quoted(a.message@) + "}"@
}

/// An acknowledgement with status 200 that carries `data` and echoes `message_id`.
pub open spec fn is_ack_for(a: ClientUpStream, data: Seq<char>, message_id: Seq<char>) -> bool {
    &&& a.code == 200
    &&& a.headers.content_type@ == "application/json"@
    &&& a.headers.message_id@ == message_id
    &&& a.message@ == "OK"@
    &&& a.data@ == data
}

fn str_or_empty(text: &str, key: &str) -> (r: String)
    ensures
        r@ == str_member_or_empty(text@, key@),
{
    match str_member(text, key) {
        Some(s) => s,
        None => String::new(),
    }
}

impl EventData {
    /// Reads the event fields from the text of a headers object; each absent
    /// field is empty.
    pub fn from_headers(h: &str) -> (r: EventData)
        ensures
            event_decodes_to(h@, r),
    {
        EventData {
            event_type: str_or_empty(h, "eventType"),
            event_born_time: str_or_empty(h, "eventBornTime"),
            event_id: str_or_empty(h, "eventId"),
            event_corp_id: str_or_empty(h, "eventCorpId"),
            event_unified_app_id: str_or_empty(h, "eventUnifiedAppId"),
        }
    }
}

impl EventData {
    /// A copy equal to this value.
    pub fn cloned(&self) -> (r: EventData)
        ensures
            r == *self,
    {
        EventData {
            event_type: self.event_type.clone(),
            event_born_time: self.event_born_time.clone(),
            event_id: self.event_id.clone(),
            event_corp_id: self.event_corp_id.clone(),
            event_unified_app_id: self.event_unified_app_id.clone(),
        }
    }
}

impl StreamDownHeaders {
    /// A copy equal to this value.
    pub fn cloned(&self) -> (r: StreamDownHeaders)
        ensures
            r == *self,
    {
        StreamDownHeaders {
            app_id: self.app_id.clone(),
            connection_id: self.connection_id.clone(),
            content_type: self.content_type.clone(),
            message_id: self.message_id.clone(),
            time: self.time.clone(),
            topic: self.topic.clone(),
            event: self.event.cloned(),
        }
    }

    /// Reads the headers of a downstream frame from the text of its headers
    /// object.
    pub fn decode(h: &str) -> (r: Option<StreamDownHeaders>)
        ensures
            r is Some <==> headers_decodable(h@),
            r matches Some(d) ==> headers_decode_to(h@, d),
    {
        let content_type = str_member(h, "contentType");
        let message_id = str_member(h, "messageId");
        let time = str_member(h, "time");
        let topic = str_member(h, "topic");
        match (content_type, message_id, time, topic) {
            (Some(content_type), Some(message_id), Some(time), Some(topic)) => {
                Some(StreamDownHeaders {
                    app_id: str_or_empty(h, "appId"),
                    connection_id: str_or_empty(h, "connectionId"),
                    content_type,
                    message_id,
                    time,
                    topic,
                    event: EventData::from_headers(h),
                })
            },
            _ => None,
        }
    }
}

impl ClientDownStream {
    /// A copy equal to this value.
    pub fn cloned(&self) -> (r: ClientDownStream)
        ensures
            r == *self,
    {
        ClientDownStream {
            spec_version: self.spec_version.clone(),
            kind: self.kind.clone(),
            headers: self.headers.cloned(),
            data: self.data.clone(),
        }
    }

    /// Decodes the text of a downstream frame; `None` when the text is not one.
    pub fn decode(text: &str) -> (r: Option<ClientDownStream>)
        ensures
            r is Some <==> frame_decodable(text@),
            r matches Some(f) ==> frame_decodes_to(text@, f),
    {
        let spec_version = str_member(text, "specVersion");
        let kind = str_member(text, "type");
        let data = str_member(text, "data");
        let headers = match member_text(text, "headers") {
            Some(h) => StreamDownHeaders::decode(h.as_str()),
            None => None,
        };
        match (spec_version, kind, data, headers) {
            (Some(spec_version), Some(kind), Some(data), Some(headers)) => {
                Some(ClientDownStream { spec_version, kind, headers, data })
            },
            _ => None,
        }
    }
}

impl ClientUpStream {
    /// An acknowledgement with status 200 and message "OK", carrying `data` and
    /// echoing `message_id`.
    pub fn new(data: String, message_id: String) -> (r: ClientUpStream)
        ensures
            is_ack_for(r, data@, message_id@),
    {
        ClientUpStream {
            code: 200,
            headers: StreamUpHeader {
                content_type: String::from_str("application/json"),
                message_id,
            },
            message: String::from_str("OK"),
            data,
        }
    }

    /// The JSON text sent on the wire for this acknowledgement.
    pub fn to_json(&self) -> (r: String)
        ensures
            r@ == up_stream_text(*self),
    {
        let mut s = String::from_str("{\"code\":");
        let code = decimal(self.code as u64);
        s.append(code.as_str());
        s.append(",\"headers\":{\"contentType\":");
        let ct = quote(self.headers.content_type.as_str());
        s.append(ct.as_str());
        s.append(",\"messageId\":");
        let mid = quote(self.headers.message_id.as_str());
        s.append(mid.as_str());
        s.append("},\"message\":");
        let msg = quote(self.message.as_str());
        s.append(msg.as_str());
        s.append(",\"data\":");
        let data = quote(self.data.as_str());
        s.append(data.as_str());
        s.append("}");
        s
    }
}

impl AckStatus {
    /// The protocol's name for this status.
    pub fn as_str(&self) -> (r: &'static str)
        ensures
            r@ == ack_status_text(*self),
    {
        match self {
            AckStatus::Success => "SUCCESS",
            AckStatus::Later => "LATER",
        }
    }
}

impl EventAckData {
    /// The answer given when no handler says otherwise: success, no message.
    pub fn success() -> (r: EventAckData)
        ensures
            r.status == AckStatus::Success,
            r.message@ == Seq::<char>::empty(),
    {
        EventAckData { status: AckStatus::Success, message: String::new() }
    }

    /// The JSON text of this answer, as it is carried in an acknowledgement.
    pub fn to_json(&self) -> (r: String)
        ensures
            r@ == event_ack_text(*self),
    {
        let mut s = String::from_str("{\"status\":");
        let st = quote(self.status.as_str());
        s.append(st.as_str());
        s.append(",\"message\":");
        let msg = quote(self.message.as_str());
        s.append(msg.as_str());
        s.append("}");
        s
    }
}

impl Default for EventAckData {
    fn default() -> (r: EventAckData)
        ensures
            r.status == AckStatus::Success,
            r.message@ == Seq::<char>::empty(),
    {
        EventAckData::success()
    }
}

} // verus!
