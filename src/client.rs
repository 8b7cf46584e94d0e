//! The client: its configuration and its connection supervisor, with the
//! operations a host calls on it.
use vstd::prelude::*;
use crate::config::{has_callback, ClientConfig, SubscriptionKind, DEFAULT_HEARTBEAT_MS, DEFAULT_RECONNECT_MS};
use crate::supervisor::{next_action, next_state, Action, ConnectionState, Event, Supervisor};

verus! {

/// A stream client: what it sends to negotiate, and where its connection
/// stands.
#[derive(Debug, Clone)]
pub struct Client {
    pub config: ClientConfig,
    pub supervisor: Supervisor,
}

/// `b` is `a` with its configuration's knobs possibly changed.
pub open spec fn same_identity(a: ClientConfig, b: ClientConfig) -> bool {
    &&& a.client_id == b.client_id
    &&& a.client_secret == b.client_secret
    &&& a.subscriptions == b.subscriptions
    &&& a.access_token == b.access_token
    &&& a.token_expires_in == b.token_expires_in
}

impl Client {
    pub open spec fn wf(&self) -> bool {
        self.config.wf()
    }

    /// A disconnected client for the given identity, with the default
    /// subscriptions and intervals.
    pub fn new(client_id: String, client_secret: String) -> (r: Client)
        ensures
            r.wf(),
            r.config.client_id == client_id,
            r.config.client_secret == client_secret,
            r.config.ua@ == Seq::<char>::empty(),
            r.config.heartbeat_interval == DEFAULT_HEARTBEAT_MS,
            r.config.reconnect_interval == DEFAULT_RECONNECT_MS,
            r.config.access_token@ == Seq::<char>::empty(),
            r.config.subscriptions@.len() == 2,
            r.config.subscriptions@[0].kind == SubscriptionKind::Event,
            r.config.subscriptions@[0].topic@ == "*"@,
            r.config.subscriptions@[1].kind == SubscriptionKind::System,
            r.config.subscriptions@[1].topic@ == "*"@,
            r.supervisor == Supervisor::spec_new(),
    {
        Client { config: ClientConfig::new(client_id, client_secret), supervisor: Supervisor::new() }
    }

    /// Sets the User-Agent sent to the gateway.
    pub fn ua(self, value: String) -> (r: Client)
        ensures
            r.config.ua == value,
            same_identity(self.config, r.config),
            r.config.heartbeat_interval == self.config.heartbeat_interval,
            r.config.reconnect_interval == self.config.reconnect_interval,
            r.supervisor == self.supervisor,
    {
        let mut c = self;
        c.config.ua = value;
        c
    }

    /// Sets the heartbeat interval in milliseconds; 0 disables the heartbeat.
    /// It applies from the next connection cycle.
    pub fn keep_alive(self, value: i64) -> (r: Client)
        ensures
            r.config.heartbeat_interval == value,
            same_identity(self.config, r.config),
            r.config.ua == self.config.ua,
            r.config.reconnect_interval == self.config.reconnect_interval,
            r.supervisor == self.supervisor,
    {
        let mut c = self;
        c.config.heartbeat_interval = value;
        c
    }

    /// Sets the reconnect delay in milliseconds; 0 disables reconnecting.
    /// It applies from the next connection cycle.
    pub fn reconnect(self, value: i64) -> (r: Client)
        ensures
            r.config.reconnect_interval == value,
            same_identity(self.config, r.config),
            r.config.ua == self.config.ua,
            r.config.heartbeat_interval == self.config.heartbeat_interval,
            r.supervisor == self.supervisor,
    {
        let mut c = self;
        c.config.reconnect_interval = value;
        c
    }

    /// Advertises `topic` as a CALLBACK subscription from the next
    /// negotiation on, unless it already is; returns whether it was added.
    pub fn register_callback_listener(&mut self, topic: &str) -> (r: bool)
        requires
            old(self).wf(),
        ensures
            final(self).wf(),
            r == !has_callback(old(self).config.subscriptions@, topic@),
            has_callback(final(self).config.subscriptions@, topic@),
            !r ==> final(self).config.subscriptions@ == old(self).config.subscriptions@,
            r ==> final(self).config.subscriptions@.len() == old(self).config.subscriptions@.len() + 1
                && final(self).config.subscriptions@.drop_last() == old(self).config.subscriptions@,
            final(self).config.client_id == old(self).config.client_id,
            final(self).config.client_secret == old(self).config.client_secret,
            final(self).config.ua == old(self).config.ua,
            final(self).config.access_token == old(self).config.access_token,
            final(self).config.token_expires_in == old(self).config.token_expires_in,
            final(self).config.heartbeat_interval == old(self).config.heartbeat_interval,
            final(self).config.reconnect_interval == old(self).config.reconnect_interval,
            final(self).supervisor == old(self).supervisor,
    {
        let r = self.config.add_callback_subscription(topic);
        proof {
            if r {
                assert(self.config.subscriptions@.drop_last() =~= old(self).config.subscriptions@);
            }
        }
        r
    }

    /// Begins connecting with the intervals configured now.
    pub fn connect(&mut self) -> (a: Action)
        ensures
            final(self).config == old(self).config,
            final(self).supervisor == next_state(
                old(self).supervisor,
                Event::Start {
                    heartbeat_interval: old(self).config.heartbeat_interval,
                    reconnect_interval: old(self).config.reconnect_interval,
                },
            ),
            a == next_action(
                old(self).supervisor,
                Event::Start {
                    heartbeat_interval: old(self).config.heartbeat_interval,
                    reconnect_interval: old(self).config.reconnect_interval,
                },
            ),
    {
        let e = Event::Start {
            heartbeat_interval: self.config.heartbeat_interval,
            reconnect_interval: self.config.reconnect_interval,
        };
        self.supervisor.step(e)
    }

    /// The reconnect delay is over: connect again with the intervals
    /// configured now, unless `exit` was called.
    pub fn reconnect_due(&mut self) -> (a: Action)
        ensures
            final(self).config == old(self).config,
            final(self).supervisor == next_state(
                old(self).supervisor,
                Event::ReconnectDue {
                    heartbeat_interval: old(self).config.heartbeat_interval,
                    reconnect_interval: old(self).config.reconnect_interval,
                },
            ),
            a == next_action(
                old(self).supervisor,
                Event::ReconnectDue {
                    heartbeat_interval: old(self).config.heartbeat_interval,
                    reconnect_interval: old(self).config.reconnect_interval,
                },
            ),
    {
        let e = Event::ReconnectDue {
            heartbeat_interval: self.config.heartbeat_interval,
            reconnect_interval: self.config.reconnect_interval,
        };
        self.supervisor.step(e)
    }

    /// Reports event `e` to the supervisor.
    pub fn handle(&mut self, e: Event) -> (a: Action)
        ensures
            final(self).config == old(self).config,
            final(self).supervisor == next_state(old(self).supervisor, e),
            a == next_action(old(self).supervisor, e),
    {
        self.supervisor.step(e)
    }

    /// Asks the client to stop: the current session is aborted, a pending
    /// reconnect delay is cut short, and no reconnect follows. Calling it again
    /// changes nothing.
    pub fn exit(&mut self) -> (a: Action)
        ensures
            final(self).config == old(self).config,
            final(self).supervisor == next_state(old(self).supervisor, Event::Exit),
            final(self).supervisor.user_exit,
            a == Action::Abort,
    {
        self.supervisor.step(Event::Exit)
    }

    /// Where the connection stands.
    pub fn state(&self) -> (r: ConnectionState)
        ensures
            r == self.supervisor.state,
    {
        self.supervisor.state
    }
}

} // verus!
