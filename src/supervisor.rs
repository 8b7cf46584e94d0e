//! The connection supervisor: negotiate an endpoint, open the session, run the
//! heartbeat watchdog and the dispatcher, then reconnect or stop.
//!
//! The supervisor is a state machine. The runtime around it reports what
//! happened as an `Event`; `step` updates the state and answers with the
//! `Action` to carry out next.
use vstd::prelude::*;
use crate::config::ClientError;

verus! {

/// Phase of the connection, as the host observes it.
#[derive(Debug, Default, Clone, Copy, PartialEq, Eq, Hash, Structural)]
pub enum ConnectionState {
    Connected,
    Connecting,
    #[default]
    Disconnected,
}

/// What the supervisor knows between events.
#[derive(Debug, Clone, Copy, PartialEq, Eq, Structural)]
pub struct Supervisor {
    pub state: ConnectionState,
    /// A pong (or the opening of the session) was seen since the last ping.
    pub alive: bool,
    /// `exit` was called; it is never cleared.
    pub user_exit: bool,
    /// Heartbeat interval of the current cycle, in milliseconds; 0 disables it.
    pub heartbeat_interval: i64,
    /// Reconnect delay of the current cycle, in milliseconds; 0 disables it.
    pub reconnect_interval: i64,
    /// Number of the latest session opened; ticks of older watchdogs carry an
    /// older number and are ignored.
    pub epoch: u64,
}

/// What the runtime reports to the supervisor.
#[derive(Debug, Clone)]
pub enum Event {
    /// The host asks to connect, with the intervals configured now.
    Start { heartbeat_interval: i64, reconnect_interval: i64 },
    /// The reconnect delay has passed (or was cut short), with the intervals
    /// configured now.
    ReconnectDue { heartbeat_interval: i64, reconnect_interval: i64 },
    /// Negotiation gave this websocket URL.
    EndpointReady(String),
    /// Negotiation or the websocket handshake failed.
    Failed(ClientError),
    /// The websocket handshake completed.
    Opened,
    /// A heartbeat interval has passed for the watchdog of session `epoch`.
    HeartbeatTick { epoch: u64 },
    /// A pong frame arrived.
    Pong,
    /// The session ended: a close frame, a read error, or an abort.
    SessionEnded,
    /// The user asked the client to stop.
    Exit,
}

/// What the runtime carries out next.
#[derive(Debug)]
pub enum Action {
    /// Fetch a token, then negotiate an endpoint.
    Negotiate,
    /// Open the websocket session at this URL.
    Open(String),
    /// Run the dispatcher; start the heartbeat watchdog of session `epoch`,
    /// ticking every `heartbeat_ms`, if it is positive.
    Serve { heartbeat_ms: i64, epoch: u64 },
    /// Send a ping and tick again after `next_tick_ms`.
    Ping { next_tick_ms: i64 },
    /// End the session and wake whatever waits (the session, a reconnect delay).
    Abort,
    /// Wait `delay_ms`, then report `ReconnectDue`.
    WaitReconnect { delay_ms: i64 },
    /// The connect operation returns this.
    Stop(Result<(), ClientError>),
    /// Nothing to do.
    Idle,
}

/// The number of the session opened after session `epoch`.
pub open spec fn next_epoch(epoch: u64) -> u64 {
    if epoch == u64::MAX {
        0
    } else {
        (epoch + 1) as u64
    }
}

/// The state after event `e` in state `s`.
pub open spec fn next_state(s: Supervisor, e: Event) -> Supervisor {
    match e {
        Event::Start { heartbeat_interval, reconnect_interval } => {
            if s.state == ConnectionState::Disconnected {
                Supervisor {
                    state: ConnectionState::Connecting,
                    alive: false,
                    heartbeat_interval,
                    reconnect_interval,
                    ..s
                }
            } else {
                s
            }
        },
        Event::ReconnectDue { heartbeat_interval, reconnect_interval } => {
            if s.state == ConnectionState::Disconnected && !s.user_exit {
                Supervisor {
                    state: ConnectionState::Connecting,
                    alive: false,
                    heartbeat_interval,
                    reconnect_interval,
                    ..s
                }
            } else {
                s
            }
        },
        Event::EndpointReady(_) => s,
        Event::Failed(_) => {
            if s.state == ConnectionState::Connecting {
                Supervisor { state: ConnectionState::Disconnected, alive: false, ..s }
            } else {
                s
            }
        },
        Event::Opened => {
            if s.state == ConnectionState::Connecting {
                Supervisor { state: ConnectionState::Connected, alive: true, epoch: next_epoch(s.epoch), ..s }
            } else {
                s
            }
        },
        Event::HeartbeatTick { epoch } => {
            if s.state == ConnectionState::Connected && s.heartbeat_interval > 0 && epoch == s.epoch
                && s.alive {
                Supervisor { alive: false, ..s }
            } else {
                s
            }
        },
        Event::Pong => {
            if s.state == ConnectionState::Connected {
                Supervisor { alive: true, ..s }
            } else {
                s
            }
        },
        Event::SessionEnded => {
            if s.state == ConnectionState::Connected {
                Supervisor { state: ConnectionState::Disconnected, alive: false, ..s }
            } else {
                s
            }
        },
        Event::Exit => Supervisor { user_exit: true, ..s },
    }
}

/// The action that answers event `e` in state `s`.
pub open spec fn next_action(s: Supervisor, e: Event) -> Action {
    match e {
        Event::Start { .. } => {
            if s.state == ConnectionState::Disconnected {
                Action::Negotiate
            } else {
                Action::Idle
            }
        },
        Event::ReconnectDue { .. } => {
            if s.state != ConnectionState::Disconnected {
                Action::Idle
            } else if s.user_exit {
                Action::Stop(Ok(()))
            } else {
                Action::Negotiate
            }
        },
        Event::EndpointReady(url) => {
            if s.state == ConnectionState::Connecting {
                Action::Open(url)
            } else {
                Action::Idle
            }
        },
        Event::Failed(err) => {
            if s.state == ConnectionState::Connecting {
                Action::Stop(Err(err))
            } else {
                Action::Idle
            }
        },
        Event::Opened => {
            if s.state == ConnectionState::Connecting {
                Action::Serve { heartbeat_ms: s.heartbeat_interval, epoch: next_epoch(s.epoch) }
            } else {
                Action::Idle
            }
        },
        Event::HeartbeatTick { epoch } => {
            if s.state == ConnectionState::Connected && s.heartbeat_interval > 0 && epoch == s.epoch {
                if s.alive {
                    Action::Ping { next_tick_ms: s.heartbeat_interval }
                } else {
                    Action::Abort
                }
            } else {
                Action::Idle
            }
        },
        Event::Pong => Action::Idle,
        Event::SessionEnded => {
            if s.state != ConnectionState::Connected {
                Action::Idle
            } else if s.reconnect_interval > 0 && !s.user_exit {
                Action::WaitReconnect { delay_ms: s.reconnect_interval }
            } else {
                Action::Stop(Ok(()))
            }
        },
        Event::Exit => Action::Abort,
    }
}

/// The state after the events `evs`, one after another.
pub open spec fn run_state(s: Supervisor, evs: Seq<Event>) -> Supervisor
    decreases evs.len(),
{
    if evs.len() == 0 {
        s
    } else {
        run_state(next_state(s, evs[0]), evs.drop_first())
    }
}

/// The actions that answer the events `evs`, one after another.
pub open spec fn run_actions(s: Supervisor, evs: Seq<Event>) -> Seq<Action>
    decreases evs.len(),
{
    if evs.len() == 0 {
        Seq::empty()
    } else {
        seq![next_action(s, evs[0])] + run_actions(next_state(s, evs[0]), evs.drop_first())
    }
}

impl Supervisor {
    /// The supervisor of a client that has not connected yet.
    pub open spec fn spec_new() -> Supervisor {
        Supervisor {
            state: ConnectionState::Disconnected,
            alive: false,
            user_exit: false,
            heartbeat_interval: 0,
            reconnect_interval: 0,
            epoch: 0,
        }
    }

    /// A supervisor that is disconnected, alive flag clear, not exited.
    pub fn new() -> (r: Supervisor)
        ensures
            r == Supervisor::spec_new(),
    {
        Supervisor {
            state: ConnectionState::Disconnected,
            alive: false,
            user_exit: false,
            heartbeat_interval: 0,
            reconnect_interval: 0,
            epoch: 0,
        }
    }

    /// Takes event `e` and returns the action to carry out next.
    pub fn step(&mut self, e: Event) -> (a: Action)
        ensures
            *final(self) == next_state(*old(self), e),
            a == next_action(*old(self), e),
    {
        match e {
            Event::Start { heartbeat_interval, reconnect_interval } => {
                if self.state == ConnectionState::Disconnected {
                    self.state = ConnectionState::Connecting;
                    self.alive = false;
                    self.heartbeat_interval = heartbeat_interval;
                    self.reconnect_interval = reconnect_interval;
                    Action::Negotiate
                } else {
                    Action::Idle
                }
            },
            Event::ReconnectDue { heartbeat_interval, reconnect_interval } => {
                if self.state != ConnectionState::Disconnected {
                    Action::Idle
                } else if self.user_exit {
                    Action::Stop(Ok(()))
                } else {
                    self.state = ConnectionState::Connecting;
                    self.alive = false;
                    self.heartbeat_interval = heartbeat_interval;
                    self.reconnect_interval = reconnect_interval;
                    Action::Negotiate
                }
            },
            Event::EndpointReady(url) => {
                if self.state == ConnectionState::Connecting {
                    Action::Open(url)
                } else {
                    Action::Idle
                }
            },
            Event::Failed(err) => {
                if self.state == ConnectionState::Connecting {
                    self.state = ConnectionState::Disconnected;
                    self.alive = false;
                    Action::Stop(Err(err))
                } else {
                    Action::Idle
                }
            },
            Event::Opened => {
                if self.state == ConnectionState::Connecting {
                    self.state = ConnectionState::Connected;
                    self.alive = true;
                    self.epoch = if self.epoch == u64::MAX { 0 } else { self.epoch + 1 };
                    Action::Serve { heartbeat_ms: self.heartbeat_interval, epoch: self.epoch }
                } else {
                    Action::Idle
                }
            },
            Event::HeartbeatTick { epoch } => {
                if self.state == ConnectionState::Connected && self.heartbeat_interval > 0
                    && epoch == self.epoch {
                    if self.alive {
                        self.alive = false;
                        Action::Ping { next_tick_ms: self.heartbeat_interval }
                    } else {
                        Action::Abort
                    }
                } else {
                    Action::Idle
                }
            },
            Event::Pong => {
                if self.state == ConnectionState::Connected {
                    self.alive = true;
                }
                Action::Idle
            },
            Event::SessionEnded => {
                if self.state != ConnectionState::Connected {
                    Action::Idle
                } else {
                    self.state = ConnectionState::Disconnected;
                    self.alive = false;
                    if self.reconnect_interval > 0 && !self.user_exit {
                        Action::WaitReconnect { delay_ms: self.reconnect_interval }
                    } else {
                        Action::Stop(Ok(()))
                    }
                }
            },
            Event::Exit => {
                self.user_exit = true;
                Action::Abort
            },
        }
    }
}

/// Heartbeat: in a connected session with the heartbeat on, a tick pings and
/// clears the alive flag; if no pong comes before the next tick, that tick
/// aborts the session; when it has ended, a reconnect is scheduled after the
/// reconnect delay if that is positive and no exit was asked for, and when
/// the delay is over a fresh negotiation begins.
pub proof fn lemma_missed_pong_tears_down(s: Supervisor, heartbeat_interval: i64, reconnect_interval: i64)
    requires
        s.state == ConnectionState::Connected,
        s.alive,
        s.heartbeat_interval > 0,
    ensures
        ({
            let s1 = next_state(s, Event::HeartbeatTick { epoch: s.epoch });
            let s2 = next_state(s1, Event::HeartbeatTick { epoch: s.epoch });
            let s3 = next_state(s2, Event::SessionEnded);
            let due = Event::ReconnectDue { heartbeat_interval, reconnect_interval };
            &&& next_action(s, Event::HeartbeatTick { epoch: s.epoch }) == Action::Ping { next_tick_ms: s.heartbeat_interval }
            &&& !s1.alive
            &&& next_action(s1, Event::HeartbeatTick { epoch: s.epoch }) == Action::Abort
            &&& s3.state == ConnectionState::Disconnected
            &&& (s.reconnect_interval > 0 && !s.user_exit) ==> next_action(s2, Event::SessionEnded)
                == Action::WaitReconnect { delay_ms: s.reconnect_interval }
                && next_action(s3, due) == Action::Negotiate
                && next_state(s3, due).state == ConnectionState::Connecting
            &&& !(s.reconnect_interval > 0 && !s.user_exit) ==> next_action(s2, Event::SessionEnded)
                == Action::Stop(Ok(()))
        }),
{
}

/// A pong in a connected session sets the alive flag, so the next tick pings
/// again instead of aborting.
pub proof fn lemma_pong_keeps_session(s: Supervisor)
    requires
        s.state == ConnectionState::Connected,
        s.heartbeat_interval > 0,
    ensures
        next_state(s, Event::Pong).alive,
        next_action(next_state(s, Event::Pong), Event::HeartbeatTick { epoch: s.epoch }) == (Action::Ping {
            next_tick_ms: s.heartbeat_interval,
        }),
{
}

/// A tick from the watchdog of an earlier session changes nothing: each new
/// session is supervised by its own watchdog alone.
pub proof fn lemma_stale_tick_ignored(s: Supervisor, epoch: u64)
    requires
        epoch != s.epoch,
    ensures
        next_state(s, Event::HeartbeatTick { epoch }) == s,
        next_action(s, Event::HeartbeatTick { epoch }) == Action::Idle,
{
}

/// Once `exit` has been asked for, no event ever clears it again.
pub proof fn lemma_exit_persists(s: Supervisor, evs: Seq<Event>)
    requires
        s.user_exit,
    ensures
        run_state(s, evs).user_exit,
        forall|i: int| 0 <= i < run_actions(s, evs).len() ==> !(#[trigger] run_actions(s, evs)[i] is WaitReconnect),
    decreases evs.len(),
{
    if evs.len() > 0 {
        let s1 = next_state(s, evs[0]);
        lemma_exit_persists(s1, evs.drop_first());
        let rest = run_actions(s1, evs.drop_first());
        assert(run_actions(s, evs) == seq![next_action(s, evs[0])] + rest);
        assert forall|i: int| 0 <= i < run_actions(s, evs).len() implies !(#[trigger] run_actions(s, evs)[i] is WaitReconnect) by {
            if i > 0 {
                assert(run_actions(s, evs)[i] == rest[i - 1]);
            }
        }
    }
}

/// `exit` during a connected session aborts it, asking again changes nothing,
/// and from then on, whatever happens, no reconnect is scheduled: the session's
/// end and every reconnect that was already due stop the client.
pub proof fn lemma_exit_prevents_reconnect(s: Supervisor, evs: Seq<Event>)
    requires
        s.state == ConnectionState::Connected,
    ensures
        ({
            let s1 = next_state(s, Event::Exit);
            &&& next_action(s, Event::Exit) == Action::Abort
            &&& next_state(s1, Event::Exit) == s1
            &&& next_action(s1, Event::Exit) == Action::Abort
            &&& next_action(s1, Event::SessionEnded) == Action::Stop(Ok(()))
            &&& run_state(s1, evs).user_exit
            &&& forall|i: int| 0 <= i < run_actions(s1, evs).len()
                ==> !(#[trigger] run_actions(s1, evs)[i] is WaitReconnect)
            &&& forall|h: i64, r: i64| #![auto] next_action(
                next_state(s1, Event::SessionEnded),
                Event::ReconnectDue { heartbeat_interval: h, reconnect_interval: r },
            ) == Action::Stop(Ok(()))
        }),
{
    let s1 = next_state(s, Event::Exit);
    lemma_exit_persists(s1, evs);
}

} // verus!
