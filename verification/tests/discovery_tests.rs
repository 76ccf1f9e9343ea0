use fluster_session::discovery::{
    broadcaster_start, broadcaster_step, discovery_event, encode_announcement, listener_start,
    listener_step, multicast_group, BroadcasterAction, BroadcasterEvent, BroadcasterState,
    DiscoveredPeer, ListenerAction, ListenerEvent, ListenerState, ServerInfo,
    BROADCAST_INTERVAL_SECS, DATAGRAM_CAPACITY, MULTICAST_PORT, MULTICAST_TTL,
};

fn info(port: u16, version: &str) -> ServerInfo {
    ServerInfo { port, version: version.to_string() }
}

fn parse(datagram: &str) -> Option<ServerInfo> {
    let value: serde_json::Value = serde_json::from_str(datagram).ok()?;
    let port = value.get("port")?.as_u64()?;
    let version = value.get("version")?.as_str()?;
    if port > u16::MAX as u64 {
        return None;
    }
    Some(ServerInfo { port: port as u16, version: version.to_string() })
}

fn announced(action: &BroadcasterAction) -> Option<&str> {
    match action {
        BroadcasterAction::Announce(text) => Some(text.as_str()),
        _ => None,
    }
}

#[test]
fn group_and_timing() {
    assert_eq!(multicast_group(), [239, 255, 42, 17]);
    assert_eq!(MULTICAST_PORT, 58432);
    assert_eq!(BROADCAST_INTERVAL_SECS, 5);
    assert_eq!(MULTICAST_TTL, 1);
    assert_eq!(DATAGRAM_CAPACITY, 1024);
}

#[test]
fn announcement_is_a_compact_json_object() {
    assert_eq!(encode_announcement(&info(53_124, "abc")), "{\"port\":53124,\"version\":\"abc\"}");
    assert_eq!(encode_announcement(&info(0, "")), "{\"port\":0,\"version\":\"\"}");
    assert_eq!(encode_announcement(&info(65_535, "v1")), "{\"port\":65535,\"version\":\"v1\"}");
}

#[test]
fn announcement_escapes_the_version() {
    assert_eq!(
        encode_announcement(&info(1, "a\"b\\c")),
        "{\"port\":1,\"version\":\"a\\\"b\\\\c\"}"
    );
    assert_eq!(
        encode_announcement(&info(1, "line\nbreak\ttab\r\u{8}\u{c}")),
        "{\"port\":1,\"version\":\"line\\nbreak\\ttab\\r\\b\\f\"}"
    );
    assert_eq!(
        encode_announcement(&info(1, "\u{0}\u{1f}\u{7f}")),
        "{\"port\":1,\"version\":\"\\u0000\\u001f\u{7f}\"}"
    );
    assert_eq!(
        encode_announcement(&info(1, "caf\u{e9} \u{4e16}\u{754c}")),
        "{\"port\":1,\"version\":\"caf\u{e9} \u{4e16}\u{754c}\"}"
    );
}

#[test]
fn announcement_is_read_back_by_a_json_parser() {
    for version in ["abc", "", "a\"b\\c", "x\ny", "\u{0}\u{1}\u{1f}", "caf\u{e9}"] {
        let text = encode_announcement(&info(4_242, version));
        let back = parse(&text).expect("the announcement is valid JSON");
        assert_eq!(back.port, 4_242);
        assert_eq!(back.version, version);
    }
}

#[test]
fn discovery_event_names_host_port_and_version() {
    let peer = DiscoveredPeer {
        host: "192.168.1.20".to_string(),
        port: 53_124,
        version: "abc".to_string(),
    };
    assert_eq!(
        discovery_event(&peer),
        "{\"host\":\"192.168.1.20\",\"port\":53124,\"version\":\"abc\"}"
    );
    let value: serde_json::Value = serde_json::from_str(&discovery_event(&peer)).unwrap();
    assert_eq!(value.get("host").and_then(|v| v.as_str()), Some("192.168.1.20"));
    assert_eq!(value.get("port").and_then(|v| v.as_u64()), Some(53_124));
    assert_eq!(value.get("version").and_then(|v| v.as_str()), Some("abc"));
}

#[test]
fn broadcaster_checks_the_stop_signal_first() {
    let (state, action) = broadcaster_start();
    assert_eq!(state, BroadcasterState::Checking);
    assert!(matches!(action, BroadcasterAction::CheckStop));
}

#[test]
fn broadcaster_announces_when_not_stopped() {
    let host = info(40_000, "v1");
    let (state, action) = broadcaster_step(
        BroadcasterState::Checking,
        BroadcasterEvent::StopChecked { requested: false },
        &host,
    );
    assert_eq!(state, BroadcasterState::Sending);
    assert_eq!(announced(&action), Some("{\"port\":40000,\"version\":\"v1\"}"));
}

#[test]
fn broadcaster_sleeps_one_interval_after_a_send() {
    let host = info(40_000, "v1");
    let (state, action) =
        broadcaster_step(BroadcasterState::Sending, BroadcasterEvent::Sent { delivered: true }, &host);
    assert_eq!(state, BroadcasterState::Sleeping);
    assert!(matches!(action, BroadcasterAction::Sleep(5)));
    let (state, action) = broadcaster_step(state, BroadcasterEvent::Woke, &host);
    assert_eq!(state, BroadcasterState::Checking);
    assert!(matches!(action, BroadcasterAction::CheckStop));
}

#[test]
fn broadcaster_ends_on_a_failed_send() {
    let host = info(40_000, "v1");
    let (state, action) = broadcaster_step(
        BroadcasterState::Sending,
        BroadcasterEvent::Sent { delivered: false },
        &host,
    );
    assert_eq!(state, BroadcasterState::Finished);
    assert!(matches!(action, BroadcasterAction::Exit));
}

#[test]
fn broadcaster_ends_on_stop() {
    let host = info(40_000, "v1");
    let (state, action) = broadcaster_step(
        BroadcasterState::Checking,
        BroadcasterEvent::StopChecked { requested: true },
        &host,
    );
    assert_eq!(state, BroadcasterState::Finished);
    assert!(matches!(action, BroadcasterAction::Exit));
}

#[test]
fn finished_broadcaster_sends_nothing() {
    let host = info(40_000, "v1");
    for event in [
        BroadcasterEvent::StopChecked { requested: false },
        BroadcasterEvent::StopChecked { requested: true },
        BroadcasterEvent::Sent { delivered: true },
        BroadcasterEvent::Woke,
    ] {
        let (state, action) = broadcaster_step(BroadcasterState::Finished, event, &host);
        assert_eq!(state, BroadcasterState::Finished);
        assert!(matches!(action, BroadcasterAction::Idle));
    }
}

#[test]
fn broadcaster_ignores_events_out_of_turn() {
    let host = info(40_000, "v1");
    let (state, action) = broadcaster_step(
        BroadcasterState::Sending,
        BroadcasterEvent::StopChecked { requested: false },
        &host,
    );
    assert_eq!(state, BroadcasterState::Sending);
    assert!(matches!(action, BroadcasterAction::Idle));
    let (state, action) = broadcaster_step(BroadcasterState::Checking, BroadcasterEvent::Woke, &host);
    assert_eq!(state, BroadcasterState::Checking);
    assert!(matches!(action, BroadcasterAction::Idle));
}

fn run_broadcaster(intervals_before_stop: usize) -> (usize, usize, usize) {
    let host = info(40_000, "v1");
    let (mut state, mut action) = broadcaster_start();
    let mut sent = 0;
    let mut slept = 0;
    let mut sent_after_stop = 0;
    let mut stop_seen = false;
    let mut steps = 0;
    while state != BroadcasterState::Finished {
        steps += 1;
        assert!(steps < 10_000);
        let event = match &action {
            BroadcasterAction::CheckStop => {
                let requested = slept >= intervals_before_stop;
                stop_seen = stop_seen || requested;
                BroadcasterEvent::StopChecked { requested }
            }
            BroadcasterAction::Announce(text) => {
                assert_eq!(text, "{\"port\":40000,\"version\":\"v1\"}");
                sent += 1;
                if stop_seen {
                    sent_after_stop += 1;
                }
                BroadcasterEvent::Sent { delivered: true }
            }
            BroadcasterAction::Sleep(secs) => {
                assert_eq!(*secs, 5);
                slept += 1;
                BroadcasterEvent::Woke
            }
            other => panic!("a running broadcaster asked for {:?}", other),
        };
        let next = broadcaster_step(state, event, &host);
        state = next.0;
        action = next.1;
    }
    (sent, slept, sent_after_stop)
}

#[test]
fn broadcaster_sends_at_most_one_more_than_intervals() {
    for intervals in [0usize, 1, 2, 5, 40] {
        let (sent, slept, sent_after_stop) = run_broadcaster(intervals);
        assert_eq!(slept, intervals);
        assert!(sent <= intervals + 1);
        assert_eq!(sent, intervals);
        assert_eq!(sent_after_stop, 0);
    }
}

#[test]
fn listener_checks_the_stop_signal_first() {
    let (state, action) = listener_start();
    assert_eq!(state, ListenerState::Checking);
    assert!(matches!(action, ListenerAction::CheckStop));
    let (state, action) =
        listener_step(state, ListenerEvent::StopChecked { requested: false });
    assert_eq!(state, ListenerState::Receiving);
    assert!(matches!(action, ListenerAction::Receive));
}

#[test]
fn listener_ends_on_stop_and_on_socket_failure() {
    let (state, action) =
        listener_step(ListenerState::Checking, ListenerEvent::StopChecked { requested: true });
    assert_eq!(state, ListenerState::Finished);
    assert!(matches!(action, ListenerAction::Exit));
    let (state, action) = listener_step(ListenerState::Receiving, ListenerEvent::ReceiveFailed);
    assert_eq!(state, ListenerState::Finished);
    assert!(matches!(action, ListenerAction::Exit));
}

#[test]
fn listener_publishes_an_announcement_with_the_sender_address() {
    let event = ListenerEvent::Datagram {
        source: "10.0.0.7".to_string(),
        announcement: Some(info(53_124, "abc")),
    };
    let (state, action) = listener_step(ListenerState::Receiving, event);
    assert_eq!(state, ListenerState::Publishing);
    match action {
        ListenerAction::Publish(peer) => {
            assert_eq!(peer.host, "10.0.0.7");
            assert_eq!(peer.port, 53_124);
            assert_eq!(peer.version, "abc");
        }
        other => panic!("expected a publication, got {:?}", other),
    }
}

#[test]
fn listener_goes_on_after_a_publication() {
    let (state, action) =
        listener_step(ListenerState::Publishing, ListenerEvent::Published { accepted: true });
    assert_eq!(state, ListenerState::Checking);
    assert!(matches!(action, ListenerAction::CheckStop));
}

#[test]
fn listener_ends_when_the_consumer_is_gone() {
    let (state, action) =
        listener_step(ListenerState::Publishing, ListenerEvent::Published { accepted: false });
    assert_eq!(state, ListenerState::Finished);
    assert!(matches!(action, ListenerAction::Exit));
}

#[test]
fn malformed_datagram_is_dropped_and_the_next_one_is_heard() {
    let datagrams = ["not json", "{\"port\":70000,\"version\":\"x\"}", "{\"port\":53124,\"version\":\"abc\"}"];
    let (mut state, mut action) = listener_start();
    let mut published = Vec::new();
    let mut next_datagram = 0;
    let mut steps = 0;
    while state != ListenerState::Finished {
        steps += 1;
        assert!(steps < 100);
        let event = match action {
            ListenerAction::CheckStop => ListenerEvent::StopChecked { requested: false },
            ListenerAction::Receive => {
                if next_datagram == datagrams.len() {
                    ListenerEvent::ReceiveFailed
                } else {
                    let text = datagrams[next_datagram];
                    next_datagram += 1;
                    ListenerEvent::Datagram {
                        source: "10.0.0.9".to_string(),
                        announcement: parse(text),
                    }
                }
            }
            ListenerAction::Publish(peer) => {
                published.push(peer);
                ListenerEvent::Published { accepted: true }
            }
            other => panic!("a running listener asked for {:?}", other),
        };
        let next = listener_step(state, event);
        state = next.0;
        action = next.1;
    }
    assert_eq!(published.len(), 1);
    assert_eq!(published[0].host, "10.0.0.9");
    assert_eq!(published[0].port, 53_124);
    assert_eq!(published[0].version, "abc");
}

#[test]
fn listener_hears_what_a_broadcaster_announces() {
    let host = info(49_731, "abc");
    let (state, action) = broadcaster_start();
    assert!(matches!(action, BroadcasterAction::CheckStop));
    let (_, action) =
        broadcaster_step(state, BroadcasterEvent::StopChecked { requested: false }, &host);
    let datagram = match action {
        BroadcasterAction::Announce(text) => text,
        other => panic!("expected an announcement, got {:?}", other),
    };
    assert!(datagram.len() <= DATAGRAM_CAPACITY);

    let (state, _) = listener_start();
    let (state, action) = listener_step(state, ListenerEvent::StopChecked { requested: false });
    assert!(matches!(action, ListenerAction::Receive));
    let event = ListenerEvent::Datagram {
        source: "192.168.0.12".to_string(),
        announcement: parse(&datagram),
    };
    let (_, action) = listener_step(state, event);
    match action {
        ListenerAction::Publish(peer) => {
            assert_eq!(peer.port, 49_731);
            assert_eq!(peer.version, "abc");
            assert_eq!(peer.host, "192.168.0.12");
            assert_eq!(
                discovery_event(&peer),
                "{\"host\":\"192.168.0.12\",\"port\":49731,\"version\":\"abc\"}"
            );
        }
        other => panic!("expected a publication, got {:?}", other),
    }
}

#[test]
fn repeated_announcements_give_repeated_events() {
    let mut state = ListenerState::Receiving;
    let mut count = 0;
    for _ in 0..3 {
        let event = ListenerEvent::Datagram {
            source: "10.0.0.7".to_string(),
            announcement: Some(info(1, "v")),
        };
        let (next, action) = listener_step(state, event);
        if matches!(action, ListenerAction::Publish(_)) {
            count += 1;
        }
        let (next, _) = listener_step(next, ListenerEvent::Published { accepted: true });
        let (next, _) = listener_step(next, ListenerEvent::StopChecked { requested: false });
        state = next;
    }
    assert_eq!(count, 3);
}
