use dingtalk_stream::client::Client;
use dingtalk_stream::config::ClientError;
use dingtalk_stream::supervisor::{Action, ConnectionState, Event, Supervisor};

fn connected(heartbeat: i64, reconnect: i64) -> (Client, u64) {
    let mut c = Client::new("id".to_string(), "secret".to_string())
        .keep_alive(heartbeat)
        .reconnect(reconnect);
    assert_eq!(c.state(), ConnectionState::Disconnected);
    assert!(matches!(c.connect(), Action::Negotiate));
    assert_eq!(c.state(), ConnectionState::Connecting);
    match c.handle(Event::EndpointReady("wss://x?ticket=t".to_string())) {
        Action::Open(url) => assert_eq!(url, "wss://x?ticket=t"),
        other => panic!("unexpected {:?}", other),
    }
    let epoch = match c.handle(Event::Opened) {
        Action::Serve { heartbeat_ms, epoch } => {
            assert_eq!(heartbeat_ms, heartbeat);
            epoch
        }
        other => panic!("unexpected {:?}", other),
    };
    assert_eq!(c.state(), ConnectionState::Connected);
    (c, epoch)
}

#[test]
fn missed_pong_tears_down_within_two_ticks() {
    let (mut c, epoch) = connected(8000, 1000);
    // tick at 0 ms: ping, then wait 8000 ms
    assert!(matches!(c.handle(Event::HeartbeatTick { epoch }), Action::Ping { next_tick_ms: 8000 }));
    // no pong by the tick at 8000 ms: abort
    assert!(matches!(c.handle(Event::HeartbeatTick { epoch }), Action::Abort));
    assert!(matches!(c.handle(Event::SessionEnded), Action::WaitReconnect { delay_ms: 1000 }));
    assert_eq!(c.state(), ConnectionState::Disconnected);
    assert!(matches!(c.reconnect_due(), Action::Negotiate));
    assert_eq!(c.state(), ConnectionState::Connecting);
}

#[test]
fn pong_keeps_session_alive() {
    let (mut c, epoch) = connected(8000, 1000);
    for _ in 0..3 {
        assert!(matches!(c.handle(Event::HeartbeatTick { epoch }), Action::Ping { .. }));
        assert!(matches!(c.handle(Event::Pong), Action::Idle));
    }
    assert_eq!(c.state(), ConnectionState::Connected);
}

#[test]
fn disabled_heartbeat_never_aborts() {
    let (mut c, epoch) = connected(0, 1000);
    assert!(matches!(c.handle(Event::HeartbeatTick { epoch }), Action::Idle));
    assert!(matches!(c.handle(Event::HeartbeatTick { epoch }), Action::Idle));
    assert_eq!(c.state(), ConnectionState::Connected);
}

#[test]
fn exit_prevents_reconnect() {
    let (mut c, _) = connected(8000, 1000);
    assert!(matches!(c.exit(), Action::Abort));
    let after_first = c.supervisor;
    assert!(matches!(c.exit(), Action::Abort));
    assert_eq!(c.supervisor, after_first);
    assert!(matches!(c.handle(Event::SessionEnded), Action::Stop(Ok(()))));
    assert!(matches!(c.reconnect_due(), Action::Stop(Ok(()))));
    assert_eq!(c.state(), ConnectionState::Disconnected);
}

#[test]
fn exit_during_reconnect_delay_stops() {
    let (mut c, _) = connected(8000, 1000);
    assert!(matches!(c.handle(Event::SessionEnded), Action::WaitReconnect { delay_ms: 1000 }));
    assert!(matches!(c.exit(), Action::Abort));
    assert!(matches!(c.reconnect_due(), Action::Stop(Ok(()))));
}

#[test]
fn no_reconnect_when_disabled() {
    let (mut c, _) = connected(8000, 0);
    assert!(matches!(c.handle(Event::SessionEnded), Action::Stop(Ok(()))));
}

#[test]
fn negotiation_failure_stops_with_error() {
    let mut c = Client::new("id".to_string(), "secret".to_string());
    assert!(matches!(c.connect(), Action::Negotiate));
    assert!(matches!(c.handle(Event::Failed(ClientError::AuthRequest)), Action::Stop(Err(ClientError::AuthRequest))));
    assert_eq!(c.state(), ConnectionState::Disconnected);
}

#[test]
fn events_out_of_phase_are_ignored() {
    let mut s = Supervisor::new();
    assert!(matches!(s.step(Event::Opened), Action::Idle));
    assert!(matches!(s.step(Event::HeartbeatTick { epoch: 0 }), Action::Idle));
    assert!(matches!(s.step(Event::SessionEnded), Action::Idle));
    assert_eq!(s.state, ConnectionState::Disconnected);
    assert_eq!(ConnectionState::default(), ConnectionState::Disconnected);
}

#[test]
fn stale_watchdog_is_ignored_after_reconnect() {
    let (mut c, first) = connected(8000, 1000);
    assert_eq!(first, 1);
    assert!(matches!(c.handle(Event::SessionEnded), Action::WaitReconnect { delay_ms: 1000 }));
    assert!(matches!(c.reconnect_due(), Action::Negotiate));
    assert!(matches!(c.handle(Event::EndpointReady("wss://y".to_string())), Action::Open(_)));
    let second = match c.handle(Event::Opened) {
        Action::Serve { epoch, .. } => epoch,
        other => panic!("unexpected {:?}", other),
    };
    assert_eq!(second, 2);
    assert!(matches!(c.handle(Event::HeartbeatTick { epoch: first }), Action::Idle));
    assert!(matches!(c.handle(Event::HeartbeatTick { epoch: first }), Action::Idle));
    assert!(matches!(c.handle(Event::HeartbeatTick { epoch: second }), Action::Ping { next_tick_ms: 8000 }));
    assert_eq!(c.state(), ConnectionState::Connected);
}
