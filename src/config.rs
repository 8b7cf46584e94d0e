//! Client credentials, subscriptions and tuning knobs, with the token and
//! endpoint negotiation rules that read and update them.
use vstd::prelude::*;
use crate::clock::now_millis;
use crate::constant::GET_TOKEN_URL;
use crate::json::{json_quoted, json_str_member, json_u64_member, quote, str_member, u64_member};

verus! {

/// Heartbeat interval a new client starts with, in milliseconds.
pub const DEFAULT_HEARTBEAT_MS: i64 = 8000;

/// Reconnect delay a new client starts with, in milliseconds.
pub const DEFAULT_RECONNECT_MS: i64 = 1000;

/// Largest value of a 32-bit unsigned field in a server response.
pub const U32_MAX: u64 = 4294967295;

/// Latest time, in milliseconds, at which a token can still be stored with any
/// lifetime the server may give (at most `U32_MAX` seconds).
pub const LATEST_TOKEN_TIME_MS: i64 = 9223367741887480807;

/// Class of a subscription.
#[derive(Debug, Clone, Copy, PartialEq, Eq, Structural)]
pub enum SubscriptionKind {
    Event,
    System,
    Callback,
}

/// A kind of message the client asks the server to push.
#[derive(Debug, Clone)]
pub struct Subscription {
    pub kind: SubscriptionKind,
    pub topic: String,
}

/// Failures of negotiation; each names the step that failed.
#[derive(Debug, Clone)]
pub enum ClientError {
    /// The token request returned a status outside 200..=299.
    AuthHttp { status: u16, body: String },
    /// The token response body lacks a member or holds one of the wrong type.
    AuthMalformed,
    /// The token service answered with a non-zero error code.
    AuthRejected { errcode: u64, errmsg: String },
    /// The token request could not be carried out.
    AuthRequest,
    /// The gateway returned a status outside 200..=299.
    NegotiationHttp { status: u16, body: String },
    /// The gateway response body lacks `endpoint` or `ticket`.
    NegotiationMalformed,
    /// The gateway request could not be carried out.
    NegotiationRequest,
    /// A REST call returned a status outside 200..=299.
    PostHttp { status: u16, body: String },
    /// A REST response body lacks a member it must have.
    PostMalformed,
    /// The upload service answered with a non-zero error code.
    UploadRejected { errcode: u64, errmsg: String },
    /// The websocket handshake did not complete.
    Transport,
    /// A frame was to be sent while no session was open.
    NotConnected,
}

/// What the client sends to negotiate an endpoint, and the state it keeps
/// between negotiations.
#[derive(Debug, Clone)]
pub struct ClientConfig {
    pub client_id: String,
    pub client_secret: String,
    pub ua: String,
    pub subscriptions: Vec<Subscription>,
    pub access_token: String,
    /// Time after which the token is stale, in milliseconds since the epoch.
    pub token_expires_in: i64,
    /// Delay before reconnecting, in milliseconds; 0 disables reconnecting.
    pub reconnect_interval: i64,
    /// Heartbeat interval, in milliseconds; 0 disables the heartbeat.
    pub heartbeat_interval: i64,
}

/// Whether the next access token comes from the cache or needs a request.
#[derive(Debug, Clone)]
pub enum TokenStep {
    /// The cached token is still valid.
    Cached(String),
    /// The token is stale: request one at this URL.
    Fetch(String),
}

pub open spec fn subscription_key(s: Subscription) -> (SubscriptionKind, Seq<char>) {
    (s.kind, s.topic@)
}

/// No two subscriptions share kind and topic.
pub open spec fn subscriptions_unique(subs: Seq<Subscription>) -> bool {
    forall|i: int, j: int|
        0 <= i < subs.len() && 0 <= j < subs.len() && i != j ==> subscription_key(
            #[trigger] subs[i],
        ) != subscription_key(#[trigger] subs[j])
}

pub open spec fn has_callback(subs: Seq<Subscription>, topic: Seq<char>) -> bool {
    exists|i: int| 0 <= i < subs.len() && subscription_key(#[trigger] subs[i]) == (SubscriptionKind::Callback, topic)
}

pub open spec fn is_success_status(status: u16) -> bool {
    200 <= status <= 299
}

/// The cached token serves a request made at `now`.
pub open spec fn token_valid_at(c: ClientConfig, now: i64) -> bool {
    now <= c.token_expires_in
}

pub open spec fn token_url(c: ClientConfig) -> Seq<char> {
    GET_TOKEN_URL@ + "?appkey="@ + c.client_id@ + "&appsecret="@ + c.client_secret@
}

/// A token response body with every member present and in range.
pub open spec fn token_body_wellformed(body: Seq<char>) -> bool {
    &&& json_u64_member(body, "errcode"@) matches Some(e) && e <= U32_MAX
    &&& json_str_member(body, "accessToken"@) is Some
    &&& json_str_member(body, "errmsg"@) is Some
    &&& json_u64_member(body, "expiresIn"@) matches Some(x) && x <= U32_MAX
}

/// Everything but the token and its expiry is the same in `a` and `b`.
pub open spec fn same_but_token(a: ClientConfig, b: ClientConfig) -> bool {
    &&& a.client_id == b.client_id
    &&& a.client_secret == b.client_secret
    &&& a.ua == b.ua
    &&& a.subscriptions == b.subscriptions
    &&& a.reconnect_interval == b.reconnect_interval
    &&& a.heartbeat_interval == b.heartbeat_interval
}

/// `c` holds the token that a successful response `body` received at `now`
/// gives, valid for `expiresIn` seconds.
pub open spec fn token_stored(c: ClientConfig, body: Seq<char>, now: i64) -> bool {
    &&& json_str_member(body, "accessToken"@) == Some(c.access_token@)
    &&& json_u64_member(body, "expiresIn"@) matches Some(x)
        && c.token_expires_in == now + 1000 * x
}

pub open spec fn subscription_text(s: Subscription) -> Seq<char> {
    "{\"type\":"@ + json_quoted(kind_text(s.kind)) + ",\"topic\":"@ + json_quoted(s.topic@)
        + "}"@
}

/// The subscriptions as JSON array items, separated by commas.
pub open spec fn subscription_items(subs: Seq<Subscription>) -> Seq<char>
    decreases subs.len(),
{
    if subs.len() == 0 {
        Seq::empty()
    } else if subs.len() == 1 {
        subscription_text(subs[0])
    } else {
        subscription_items(subs.drop_last()) + ","@ + subscription_text(subs.last())
    }
}

/// The gateway request body: identity, user agent and subscriptions.
pub open spec fn gateway_body_text(c: ClientConfig) -> Seq<char> {
    "{\"clientId\":"@ + json_quoted(c.client_id@) + ",\"clientSecret\":"@
        + json_quoted(c.client_secret@) + ",\"ua\":"@ + json_quoted(c.ua@)
        + ",\"subscriptions\":["@ + subscription_items(c.subscriptions@) + "]}"@
}

pub open spec fn kind_text(k: SubscriptionKind) -> Seq<char> {
    match k {
        SubscriptionKind::Event => "EVENT"@,
        SubscriptionKind::System => "SYSTEM"@,
        SubscriptionKind::Callback => "CALLBACK"@,
    }
}

/// A gateway response body that names an endpoint and a ticket.
pub open spec fn endpoint_body_wellformed(body: Seq<char>) -> bool {
    &&& json_str_member(body, "endpoint"@) is Some
    &&& json_str_member(body, "ticket"@) is Some
}

/// The single-use websocket URL that a well-formed gateway response gives.
pub open spec fn endpoint_url(body: Seq<char>) -> Seq<char> {
    json_str_member(body, "endpoint"@)->0 + "?ticket="@ + json_str_member(body, "ticket"@)->0
}

impl SubscriptionKind {
    /// The protocol's name for this kind.
    pub fn as_str(&self) -> (r: &'static str)
        ensures
            r@ == kind_text(*self),
    {
        match self {
            SubscriptionKind::Event => "EVENT",
            SubscriptionKind::System => "SYSTEM",
            SubscriptionKind::Callback => "CALLBACK",
        }
    }
}

impl Subscription {
    /// The JSON object that advertises this subscription.
    pub fn to_json(&self) -> (r: String)
        ensures
            r@ == subscription_text(*self),
    {
        let mut s = String::from_str("{\"type\":");
        let k = quote(self.kind.as_str());
        s.append(k.as_str());
        s.append(",\"topic\":");
        let t = quote(self.topic.as_str());
        s.append(t.as_str());
        s.append("}");
        s
    }
}

impl ClientConfig {
    /// Subscriptions are unique by kind and topic.
    pub open spec fn wf(&self) -> bool {
        subscriptions_unique(self.subscriptions@)
    }

    /// A configuration whose token expiry is `now`: the EVENT and SYSTEM
    /// wildcard subscriptions, an empty user agent and token, and the default
    /// intervals.
    pub fn with_time(client_id: String, client_secret: String, now: i64) -> (r: ClientConfig)
        ensures
            r.wf(),
            r.client_id == client_id,
            r.client_secret == client_secret,
            r.ua@ == Seq::<char>::empty(),
            r.access_token@ == Seq::<char>::empty(),
            r.token_expires_in == now,
            r.reconnect_interval == DEFAULT_RECONNECT_MS,
            r.heartbeat_interval == DEFAULT_HEARTBEAT_MS,
            r.subscriptions@.len() == 2,
            r.subscriptions@[0].kind == SubscriptionKind::Event,
            r.subscriptions@[0].topic@ == "*"@,
            r.subscriptions@[1].kind == SubscriptionKind::System,
            r.subscriptions@[1].topic@ == "*"@,
    {
        let mut subscriptions: Vec<Subscription> = Vec::new();
        subscriptions.push(
            Subscription { kind: SubscriptionKind::Event, topic: String::from_str("*") },
        );
        subscriptions.push(
            Subscription { kind: SubscriptionKind::System, topic: String::from_str("*") },
        );
        ClientConfig {
            client_id,
            client_secret,
            ua: String::new(),
            subscriptions,
            access_token: String::new(),
            token_expires_in: now,
            reconnect_interval: DEFAULT_RECONNECT_MS,
            heartbeat_interval: DEFAULT_HEARTBEAT_MS,
        }
    }

    /// A configuration for the given identity, with the defaults of
    /// `with_time` and a token that expires at the current time.
    pub fn new(client_id: String, client_secret: String) -> (r: ClientConfig)
        ensures
            r.wf(),
            r.client_id == client_id,
            r.client_secret == client_secret,
            r.ua@ == Seq::<char>::empty(),
            r.access_token@ == Seq::<char>::empty(),
            r.reconnect_interval == DEFAULT_RECONNECT_MS,
            r.heartbeat_interval == DEFAULT_HEARTBEAT_MS,
            r.subscriptions@.len() == 2,
            r.subscriptions@[0].kind == SubscriptionKind::Event,
            r.subscriptions@[0].topic@ == "*"@,
            r.subscriptions@[1].kind == SubscriptionKind::System,
            r.subscriptions@[1].topic@ == "*"@,
    {
        let now = now_millis();
        ClientConfig::with_time(client_id, client_secret, now)
    }

    /// The URL at which a fresh token is requested.
    pub fn token_url(&self) -> (r: String)
        ensures
            r@ == token_url(*self),
    {
        let mut s = String::from_str(GET_TOKEN_URL);
        s.append("?appkey=");
        s.append(self.client_id.as_str());
        s.append("&appsecret=");
        s.append(self.client_secret.as_str());
        s
    }

    /// The cached token while it is valid at `now`, else the request to make.
    pub fn token_step(&self, now: i64) -> (r: TokenStep)
        ensures
            token_valid_at(*self, now) ==> (r matches TokenStep::Cached(t) && t == self.access_token),
            !token_valid_at(*self, now) ==> (r matches TokenStep::Fetch(u) && u@ == token_url(*self)),
    {
        if now > self.token_expires_in {
            TokenStep::Fetch(self.token_url())
        } else {
            TokenStep::Cached(self.access_token.clone())
        }
    }

    /// `token_step` at the current time.
    pub fn token(&self) -> (r: TokenStep)
        ensures
            r matches TokenStep::Cached(t) ==> t == self.access_token,
            r matches TokenStep::Fetch(u) ==> u@ == token_url(*self),
    {
        let now = now_millis();
        self.token_step(now)
    }

    /// Takes the token service's answer (`status`, `body`) received at `now`.
    /// On success stores the token, valid for `expiresIn` seconds from `now`,
    /// and returns it; on failure leaves the configuration as it was.
    pub fn apply_token_response(&mut self, status: u16, body: &str, now: i64) -> (r: Result<String, ClientError>)
        requires
            now <= LATEST_TOKEN_TIME_MS,
        ensures
            !is_success_status(status) ==> (r matches Err(ClientError::AuthHttp { status: s, body: b })
                && s == status && b@ == body@),
            is_success_status(status) && !token_body_wellformed(body@) ==> (r matches Err(ClientError::AuthMalformed)),
            is_success_status(status) && token_body_wellformed(body@) && json_u64_member(body@, "errcode"@) != Some(0u64)
                ==> (r matches Err(ClientError::AuthRejected { errcode: e, errmsg: m })
                && Some(e) == json_u64_member(body@, "errcode"@)
                && Some(m@) == json_str_member(body@, "errmsg"@)),
            is_success_status(status) && token_body_wellformed(body@) && json_u64_member(body@, "errcode"@) == Some(0u64)
                ==> (r matches Ok(t) && t == final(self).access_token && token_stored(*final(self), body@, now)),
            r is Err ==> *final(self) == *old(self),
            same_but_token(*old(self), *final(self)),
    {
        if !(200 <= status && status <= 299) {
            return Err(ClientError::AuthHttp { status, body: String::from_str(body) });
        }
        let errcode = u64_member(body, "errcode");
        let access_token = str_member(body, "accessToken");
        let errmsg = str_member(body, "errmsg");
        let expires_in = u64_member(body, "expiresIn");
        match (errcode, access_token, errmsg, expires_in) {
            (Some(errcode), Some(access_token), Some(errmsg), Some(expires_in)) => {
                if errcode > U32_MAX || expires_in > U32_MAX {
                    Err(ClientError::AuthMalformed)
                } else if errcode != 0 {
                    Err(ClientError::AuthRejected { errcode, errmsg })
                } else {
                    let lifetime = (expires_in * 1000) as i64;
                    self.access_token = access_token.clone();
                    self.token_expires_in = now + lifetime;
                    Ok(access_token)
                }
            },
            _ => Err(ClientError::AuthMalformed),
        }
    }

    /// The JSON body of the gateway request: identity, user agent and
    /// subscriptions, in that order.
    pub fn gateway_body(&self) -> (r: String)
        ensures
            r@ == gateway_body_text(*self),
    {
        let mut s = String::from_str("{\"clientId\":");
        let id = quote(self.client_id.as_str());
        s.append(id.as_str());
        s.append(",\"clientSecret\":");
        let secret = quote(self.client_secret.as_str());
        s.append(secret.as_str());
        s.append(",\"ua\":");
        let ua = quote(self.ua.as_str());
        s.append(ua.as_str());
        s.append(",\"subscriptions\":[");
        let mut items = String::new();
        let n = self.subscriptions.len();
        let mut i: usize = 0;
        while i < n
            invariant
                n == self.subscriptions@.len(),
                i <= n,
                items@ == subscription_items(self.subscriptions@.subrange(0, i as int)),
            decreases n - i,
        {
            let item = self.subscriptions[i].to_json();
            if i > 0 {
                items.append(",");
            }
            items.append(item.as_str());
            proof {
                let next = self.subscriptions@.subrange(0, i + 1);
                assert(next.drop_last() =~= self.subscriptions@.subrange(0, i as int));
                assert(next.last() == self.subscriptions@[i as int]);
                if i == 0 {
                    assert(next.len() == 1);
                    assert(next[0] == self.subscriptions@[0]);
                    assert(items@ =~= subscription_items(next));
                }
            }
            i = i + 1;
        }
        assert(self.subscriptions@.subrange(0, n as int) =~= self.subscriptions@);
        s.append(items.as_str());
        s.append("]}");
        s
    }

    /// Whether a CALLBACK subscription for `topic` is registered.
    pub fn has_callback(&self, topic: &str) -> (r: bool)
        ensures
            r == has_callback(self.subscriptions@, topic@),
    {
        let t = String::from_str(topic);
        let n = self.subscriptions.len();
        let mut i: usize = 0;
        while i < n
            invariant
                n == self.subscriptions@.len(),
                i <= n,
                t@ == topic@,
                forall|j: int| 0 <= j < i ==> subscription_key(#[trigger] self.subscriptions@[j])
                    != (SubscriptionKind::Callback, topic@),
            decreases n - i,
        {
            let s = &self.subscriptions[i];
            if s.kind == SubscriptionKind::Callback && s.topic == t {
                assert(subscription_key(self.subscriptions@[i as int]) == (SubscriptionKind::Callback, topic@));
                return true;
            }
            i = i + 1;
        }
        false
    }

    /// Advertises `topic` as a CALLBACK subscription unless it already is;
    /// returns whether it was added.
    pub fn add_callback_subscription(&mut self, topic: &str) -> (r: bool)
        requires
            old(self).wf(),
        ensures
            final(self).wf(),
            r == !has_callback(old(self).subscriptions@, topic@),
            r ==> final(self).subscriptions@ == old(self).subscriptions@.push(
                Subscription { kind: SubscriptionKind::Callback, topic: final(self).subscriptions@.last().topic },
            ) && final(self).subscriptions@.last().topic@ == topic@,
            !r ==> final(self).subscriptions@ == old(self).subscriptions@,
            has_callback(final(self).subscriptions@, topic@),
            final(self).client_id == old(self).client_id,
            final(self).client_secret == old(self).client_secret,
            final(self).ua == old(self).ua,
            final(self).access_token == old(self).access_token,
            final(self).token_expires_in == old(self).token_expires_in,
            final(self).reconnect_interval == old(self).reconnect_interval,
            final(self).heartbeat_interval == old(self).heartbeat_interval,
    {
        if self.has_callback(topic) {
            return false;
        }
        let sub = Subscription { kind: SubscriptionKind::Callback, topic: String::from_str(topic) };
        self.subscriptions.push(sub);
        let ghost subs = self.subscriptions@;
        assert forall|i: int, j: int|
            0 <= i < subs.len() && 0 <= j < subs.len() && i != j implies subscription_key(
                #[trigger] subs[i],
            ) != subscription_key(#[trigger] subs[j]) by {
            if i == subs.len() - 1 {
                assert(subs[j] == old(self).subscriptions@[j]);
            } else if j == subs.len() - 1 {
                assert(subs[i] == old(self).subscriptions@[i]);
            } else {
                assert(subs[i] == old(self).subscriptions@[i]);
                assert(subs[j] == old(self).subscriptions@[j]);
            }
        }
        assert(subscription_key(subs[subs.len() - 1]) == (SubscriptionKind::Callback, topic@));
        true
    }
}

/// The websocket URL from the gateway's answer (`status`, `body`):
/// `endpoint?ticket=ticket`.
pub fn endpoint_from_response(status: u16, body: &str) -> (r: Result<String, ClientError>)
    ensures
        !is_success_status(status) ==> (r matches Err(ClientError::NegotiationHttp { status: s, body: b })
            && s == status && b@ == body@),
        is_success_status(status) && !endpoint_body_wellformed(body@) ==> (r matches Err(ClientError::NegotiationMalformed)),
        is_success_status(status) && endpoint_body_wellformed(body@) ==> (r matches Ok(u) && u@ == endpoint_url(body@)),
{
    if !(200 <= status && status <= 299) {
        return Err(ClientError::NegotiationHttp { status, body: String::from_str(body) });
    }
    match (str_member(body, "endpoint"), str_member(body, "ticket")) {
        (Some(endpoint), Some(ticket)) => {
            let mut url = endpoint;
            url.append("?ticket=");
            url.append(ticket.as_str());
            Ok(url)
        },
        _ => Err(ClientError::NegotiationMalformed),
    }
}

/// After a stale token is refreshed at `now` from a response that grants
/// `expiresIn` seconds, every request made from `now` up to `now + expiresIn`
/// seconds is served the new token from the cache, with no further request,
/// and the first one after that asks for a new token again.
pub proof fn lemma_refresh_serves_cache(c0: ClientConfig, c1: ClientConfig, body: Seq<char>, now: i64, later: i64)
    requires
        !token_valid_at(c0, now),
        same_but_token(c0, c1),
        token_stored(c1, body, now),
        now <= later,
    ensures
        json_str_member(body, "accessToken"@) == Some(c1.access_token@),
        later <= now + 1000 * json_u64_member(body, "expiresIn"@)->0 ==> token_valid_at(c1, later),
        later > now + 1000 * json_u64_member(body, "expiresIn"@)->0 ==> !token_valid_at(c1, later),
        token_url(c1) == token_url(c0),
{
}

} // verus!
