use forward_proxy::firewall::{Firewall, ListSource, ModTime};
use forward_proxy::logging::{event_line, Event};
use forward_proxy::proxy_listener::ProxyError;
use forward_proxy::request_handler::{
    determine_request, Action, Reply, ReqType, Session, SessionEvent,
};
use forward_proxy::tunnel::{Direction, Phase, ReadOutcome, Relay, WriteOutcome};

fn firewall(white: &[&str], black: &[&str]) -> Firewall {
    let t = Some(ModTime { before_epoch: false, secs: 1, nanos: 0 });
    Firewall::new(
        ListSource {
            path: "whitelist.txt".to_string(),
            lines: white.iter().map(|s| s.to_string()).collect(),
            modified: t,
        },
        ListSource {
            path: "blacklist.txt".to_string(),
            lines: black.iter().map(|s| s.to_string()).collect(),
            modified: t,
        },
    )
}

fn connecting(target: &str) -> Session {
    let (s, a) = Session::new()
        .step(SessionEvent::Classified(Ok(ReqType::CONNECT(target.to_string()))));
    match a {
        Action::Connect(t) => assert_eq!(t, target),
        other => panic!("unexpected {:?}", other),
    }
    s
}

#[test]
fn unreachable_destination_is_reported_without_a_firewall_check() {
    let (s, a) = connecting("10.255.255.1:9").step(SessionEvent::ConnectFailed);
    assert!(matches!(a, Action::Finish(Err(ProxyError::CannotConnectToDest))));
    assert!(matches!(s, Session::Finished));
    let (_, a) = s.step(SessionEvent::Connected);
    assert!(matches!(a, Action::Idle));
}

#[test]
fn client_not_on_whitelist_gets_403_and_no_relay() {
    let mut fw = firewall(&["10.0.0.*"], &[]);
    let (s, a) = connecting("93.184.216.34:443").step(SessionEvent::Connected);
    assert!(matches!(a, Action::Authorize));
    let verdict = fw.authorize("127.0.0.1", "93.184.216.34", None, None);
    assert!(matches!(verdict, Err(ProxyError::WhiteListDeny)));
    let (s, a) = s.step(SessionEvent::Authorized(verdict));
    assert!(matches!(a, Action::Reply(Reply::Forbidden)));
    assert_eq!(Reply::Forbidden.text(), "HTTP/1.1 403 Forbidden\r\n\r\n");
    let (s, a) = s.step(SessionEvent::Replied);
    assert!(matches!(a, Action::Finish(Err(ProxyError::WhiteListDeny))));
    let (_, a) = s.step(SessionEvent::Replied);
    assert!(matches!(a, Action::Idle));
}

#[test]
fn blacklisted_destination_gets_403_and_no_relay() {
    let mut fw = firewall(&["127.0.0.*"], &["93.184.*.*"]);
    let (s, _) = connecting("93.184.216.34:443").step(SessionEvent::Connected);
    let verdict = fw.authorize("127.0.0.1", "93.184.216.34", None, None);
    assert!(matches!(verdict, Err(ProxyError::BlackListDeny)));
    let (s, a) = s.step(SessionEvent::Authorized(verdict));
    assert!(matches!(a, Action::Reply(Reply::Forbidden)));
    let (_, a) = s.step(SessionEvent::Replied);
    assert!(matches!(a, Action::Finish(Err(ProxyError::BlackListDeny))));
}

#[test]
fn failed_refusal_write_reports_the_write_error() {
    let (s, _) = connecting("a:1").step(SessionEvent::Connected);
    let (s, _) = s.step(SessionEvent::Authorized(Err(ProxyError::WhiteListDeny)));
    let (s, a) = s.step(SessionEvent::Failed(ProxyError::IO("reset".to_string())));
    assert!(matches!(a, Action::Finish(Err(ProxyError::IO(_)))));
    assert!(matches!(s, Session::Finished));
}

#[test]
fn get_and_parse_errors_finish_without_reply() {
    let (s, a) = Session::new().step(SessionEvent::Classified(Ok(ReqType::GET("/x".to_string()))));
    assert!(matches!(a, Action::Finish(Ok(()))));
    assert!(matches!(s, Session::Finished));
    let r = determine_request(b"FOO /x HTTP/1.1\r\n\r\n");
    let (_, a) = Session::new().step(SessionEvent::Classified(r));
    assert!(matches!(a, Action::Finish(Err(ProxyError::Parse(_)))));
}

#[test]
fn out_of_order_event_ends_the_session() {
    let (s, a) = Session::new().step(SessionEvent::Replied);
    assert!(matches!(a, Action::Idle));
    assert!(matches!(s, Session::Finished));
}

#[test]
fn whitelisted_client_gets_200_then_a_working_tunnel() {
    let mut fw = firewall(&["127.0.0.*"], &[]);
    let req = determine_request(b"CONNECT 93.184.216.34:443 HTTP/1.1\r\n\r\n");
    let (s, a) = Session::new().step(SessionEvent::Classified(req));
    match a {
        Action::Connect(t) => assert_eq!(t, "93.184.216.34:443"),
        other => panic!("unexpected {:?}", other),
    }
    let (s, a) = s.step(SessionEvent::Connected);
    assert!(matches!(a, Action::Authorize));
    let verdict = fw.authorize("127.0.0.1", "93.184.216.34", None, None);
    let (s, a) = s.step(SessionEvent::Authorized(verdict));
    assert!(matches!(a, Action::Reply(Reply::Established)));
    assert_eq!(Reply::Established.text(), "HTTP/1.1 200 OK\r\n\r\n");
    let (s, a) = s.step(SessionEvent::Replied);
    assert!(matches!(a, Action::Relay));

    // bytes from either side appear at the other until the client closes
    let mut relay = Relay::new();
    let mut at_dest: Vec<u8> = Vec::new();
    let mut at_client: Vec<u8> = Vec::new();
    relay.on_read(ReadOutcome::Data(b"ping".to_vec()));
    assert_eq!(relay.phase(), Phase::Write(Direction::ClientToDest));
    at_dest.extend_from_slice(relay.unsent(Direction::ClientToDest));
    relay.on_write(WriteOutcome::Wrote(4));
    relay.on_read(ReadOutcome::Data(b"pong!".to_vec()));
    at_client.extend_from_slice(relay.unsent(Direction::DestToClient));
    relay.on_write(WriteOutcome::Wrote(5));
    assert_eq!(relay.phase(), Phase::Read(Direction::ClientToDest));
    relay.on_read(ReadOutcome::Data(Vec::new()));
    assert_eq!(relay.phase(), Phase::Done);
    assert_eq!(at_dest, b"ping");
    assert_eq!(at_client, b"pong!");
    assert_eq!(relay.total(), 9);

    let (s, a) = s.step(SessionEvent::RelayFinished(relay.total()));
    assert!(matches!(a, Action::Finish(Ok(()))));
    assert!(matches!(s, Session::Finished));
}

#[test]
fn event_tags_and_lines() {
    assert_eq!(Event::BlackListDeny.tag(), "[Blacklist Deny]");
    assert_eq!(Event::WhiteListDeny.tag(), "[Whitelist Deny]");
    assert_eq!(Event::Connection.tag(), "[Connection]");
    assert_eq!(Event::DataTransfer.tag(), "[Data Transfer]");
    assert_eq!(Event::ProxyServer.tag(), "[Proxy Server]");
    assert_eq!(Event::SuspiciousActivity.tag(), "[Suspicious Activity]");
    assert_eq!(Event::Uncategorized.tag(), "[Uncategorized]");
    assert_eq!(
        event_line("[Jan 01, 2024; 10:00 AM]", Event::Connection, "GET for /x from 127.0.0.1"),
        "[Jan 01, 2024; 10:00 AM] [Connection]: GET for /x from 127.0.0.1"
    );
}
