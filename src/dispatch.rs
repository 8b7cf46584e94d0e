//! Classification of inbound frames into the effects the client carries out:
//! acknowledgements to send, frames to publish to topic listeners, and calls of
//! the event handler.
use vstd::prelude::*;
use crate::json::json_quoted;
use crate::frame::{
    event_ack_text, frame_decodable, frame_decodes_to, is_ack_for, up_stream_text,
    ClientDownStream, ClientUpStream, EventAckData, EventData,
};

verus! {

/// Data of the acknowledgement that answers every CALLBACK frame.
pub const CALLBACK_ACK_DATA: &'static str = "{\"response\":{}}";

/// One thing the client does in answer to an inbound frame, in order.
#[derive(Debug, Clone)]
pub enum Effect {
    /// Write this acknowledgement to the session.
    Send(ClientUpStream),
    /// Hand the frame to every topic listener, without waiting for them.
    Publish(ClientDownStream),
    /// Run the event handler on these fields and answer `message_id` with
    /// what it returns (see `on_event`).
    CallEventHandler { message_id: String, event: EventData },
}

/// The effects that the frame `p` calls for:
/// - SYSTEM `ping`: an acknowledgement echoing the frame's data;
/// - other SYSTEM topics: none;
/// - EVENT: one call of the event handler;
/// - CALLBACK: an acknowledgement with an empty response, then publication;
/// - any other type: none.
pub open spec fn down_stream_effects(p: ClientDownStream, r: Seq<Effect>) -> bool {
    if p.kind@ == "SYSTEM"@ {
        if p.headers.topic@ == "ping"@ {
            &&& r.len() == 1
            &&& r[0] matches Effect::Send(a) && is_ack_for(a, p.data@, p.headers.message_id@)
        } else {
            r.len() == 0
        }
    } else if p.kind@ == "EVENT"@ {
        &&& r.len() == 1
        &&& r[0] matches Effect::CallEventHandler { message_id: m, event: e }
            && m@ == p.headers.message_id@ && e == p.headers.event
    } else if p.kind@ == "CALLBACK"@ {
        &&& r.len() == 2
        &&& r[0] matches Effect::Send(a) && is_ack_for(a, CALLBACK_ACK_DATA@, p.headers.message_id@)
        &&& r[1] matches Effect::Publish(f) && f == p
    } else {
        r.len() == 0
    }
}

/// The effects that the text frame `text` calls for: those of the frame it
/// decodes to, or none when it is not a frame.
pub open spec fn text_effects(text: Seq<char>, r: Seq<Effect>) -> bool {
    if frame_decodable(text) {
        exists|p: ClientDownStream| frame_decodes_to(text, p) && down_stream_effects(p, r)
    } else {
        r.len() == 0
    }
}

fn is_text(s: &String, lit: &str) -> (r: bool)
    ensures
        r == (s@ == lit@),
{
    let t = String::from_str(lit);
    *s == t
}

/// The effects that the frame `p` calls for, in the order they are to happen.
pub fn on_down_stream(p: &ClientDownStream) -> (r: Vec<Effect>)
    ensures
        down_stream_effects(*p, r@),
{
    let mut r: Vec<Effect> = Vec::new();
    if is_text(&p.kind, "SYSTEM") {
        if is_text(&p.headers.topic, "ping") {
            let ack = ClientUpStream::new(p.data.clone(), p.headers.message_id.clone());
            r.push(Effect::Send(ack));
        }
    } else if is_text(&p.kind, "EVENT") {
        r.push(
            Effect::CallEventHandler {
                message_id: p.headers.message_id.clone(),
                event: p.headers.event.cloned(),
            },
        );
    } else if is_text(&p.kind, "CALLBACK") {
        let ack = ClientUpStream::new(
            String::from_str(CALLBACK_ACK_DATA),
            p.headers.message_id.clone(),
        );
        r.push(Effect::Send(ack));
        r.push(Effect::Publish(p.cloned()));
    }
    r
}

/// The effects that a text frame calls for; a text that is not a frame is
/// dropped.
pub fn on_text(text: &str) -> (r: Vec<Effect>)
    ensures
        text_effects(text@, r@),
{
    match ClientDownStream::decode(text) {
        Some(p) => {
            let r = on_down_stream(&p);
            assert(frame_decodes_to(text@, p) && down_stream_effects(p, r@));
            r
        },
        None => Vec::new(),
    }
}

/// The acknowledgement that answers an EVENT frame with id `message_id`,
/// carrying the event handler's answer.
pub fn on_event(message_id: String, ack: &EventAckData) -> (r: ClientUpStream)
    ensures
        is_ack_for(r, event_ack_text(*ack), message_id@),
{
    ClientUpStream::new(ack.to_json(), message_id)
}

/// The wire text of an acknowledgement carries its message id as the
/// `messageId` header.
pub open spec fn text_carries_message_id(a: ClientUpStream, message_id: Seq<char>) -> bool {
    exists|pre: Seq<char>, post: Seq<char>|
        up_stream_text(a) == pre + ",\"messageId\":"@ + json_quoted(message_id) + "},\"message\":"@
            + post
}

/// Every acknowledgement that a frame calls for, directly or through the
/// event handler, is addressed to the frame's message id, and the text written
/// on the wire carries that same id.
pub proof fn lemma_ack_echoes_message_id(p: ClientDownStream, r: Seq<Effect>, i: int)
    requires
        down_stream_effects(p, r),
        0 <= i < r.len(),
    ensures
        r[i] matches Effect::Send(a) ==> a.headers.message_id@ == p.headers.message_id@
            && text_carries_message_id(a, p.headers.message_id@),
        r[i] matches Effect::CallEventHandler { message_id: m, event: _ } ==> m@
            == p.headers.message_id@,
{
    if let Effect::Send(a) = r[i] {
        let pre = "{\"code\":"@ + crate::json::decimal_of(a.code as nat)
            + ",\"headers\":{\"contentType\":"@ + json_quoted(a.headers.content_type@);
        let post = json_quoted(a.message@) + ",\"data\":"@ + json_quoted(a.data@) + "}"@;
        assert(up_stream_text(a) =~= pre + ",\"messageId\":"@ + json_quoted(a.headers.message_id@)
            + "},\"message\":"@ + post);
    }
}

/// An event handler's answer goes back addressed to the id it was called
/// with, and the wire text carries that id.
pub proof fn lemma_event_ack_echoes_message_id(a: ClientUpStream, data: Seq<char>, message_id: Seq<char>)
    requires
        is_ack_for(a, data, message_id),
    ensures
        text_carries_message_id(a, message_id),
{
    let pre = "{\"code\":"@ + crate::json::decimal_of(a.code as nat)
        + ",\"headers\":{\"contentType\":"@ + json_quoted(a.headers.content_type@);
    let post = json_quoted(a.message@) + ",\"data\":"@ + json_quoted(a.data@) + "}"@;
    assert(up_stream_text(a) =~= pre + ",\"messageId\":"@ + json_quoted(a.headers.message_id@)
        + "},\"message\":"@ + post);
}

/// A CALLBACK frame is acknowledged first: its acknowledgement comes before
/// its publication to topic listeners, and nothing the listeners do is waited
/// for before it.
pub proof fn lemma_callback_acked_before_publish(p: ClientDownStream, r: Seq<Effect>)
    requires
        down_stream_effects(p, r),
        p.kind@ == "CALLBACK"@,
    ensures
        r[0] is Send,
        forall|i: int| 0 <= i < r.len() && (#[trigger] r[i]) is Publish ==> 0 < i,
        forall|i: int| 0 <= i < r.len() ==> !((#[trigger] r[i]) is CallEventHandler),
{
    reveal_strlit("CALLBACK");
    reveal_strlit("SYSTEM");
    reveal_strlit("EVENT");
    assert("CALLBACK"@ != "SYSTEM"@) by {
        assert("CALLBACK"@[0] != "SYSTEM"@[0]);
    }
    assert("CALLBACK"@ != "EVENT"@) by {
        assert("CALLBACK"@[0] != "EVENT"@[0]);
    }
}

} // verus!
