use converto::frame::{
    is_timed_out, CloseReason, Frame, ProtocolError, Reaction, CLIENT_TIMEOUT, HEARTBEAT_INTERVAL,
    TICKS_PER_UNIT,
};
use converto::job_id::JobId;
use converto::processor::FileProcessor;
use converto::session::WsSession;
use converto::status::Status;
use converto::wire::WsMessage;
use converto::ws::WsConn;

#[test]
fn heartbeat_times() {
    assert_eq!(HEARTBEAT_INTERVAL, 5);
    assert_eq!(CLIENT_TIMEOUT, 10);
    assert_eq!(TICKS_PER_UNIT, 1000);
}

#[test]
fn a_client_is_given_up_after_the_timeout() {
    assert!(!is_timed_out(100, 100));
    assert!(!is_timed_out(100, 5_100));
    assert!(!is_timed_out(100, 10_099));
    assert!(!is_timed_out(100, 10_100));
    assert!(is_timed_out(100, 10_101));
    assert!(is_timed_out(100, 11_100));
    assert!(is_timed_out(0, u64::MAX));
    assert!(!is_timed_out(100, 50));
    assert!(!is_timed_out(u64::MAX, 0));
}

#[test]
fn a_new_connection_is_connecting() {
    let conn = WsConn::new(JobId(1), 42);
    assert_eq!(conn.id, JobId(1));
    assert!(conn.files.is_empty());
    assert_eq!(conn.status, Status::Connecting);
    assert_eq!(conn.connected_at, 42);
    assert_eq!(conn.hb, 42);
}

#[test]
fn an_accepted_connection_greets_its_client() {
    let mut conn = WsConn::new(JobId(0x550e8400_e29b_41d4_a716_446655440000), 0);
    let greeting = conn.started().unwrap();
    assert_eq!(conn.status, Status::Connected);
    assert_eq!(
        greeting.0,
        "{\"id\":\"550e8400-e29b-41d4-a716-446655440000\",\"files\":[],\"status\":\"Connected\"}"
    );
    assert_eq!(conn.send_status().0, greeting.0);
    assert!(conn.started().is_none());
    assert_eq!(conn.status, Status::Connected);
}

#[test]
fn a_live_client_is_probed() {
    let conn = WsConn::new(JobId(1), 100);
    for now in [100, 5_100, 10_100] {
        let r = conn.hb(now);
        assert!(!r.stop);
        match r.reply {
            Some(Frame::Ping(payload)) => assert_eq!(payload, b"hi".to_vec()),
            _ => panic!("a probe was expected"),
        }
    }
}

#[test]
fn a_silent_client_stops_the_connection() {
    let conn = WsConn::new(JobId(1), 100);
    let r = conn.hb(10_101);
    assert!(r.stop);
    assert!(r.reply.is_none());
}

#[test]
fn a_sign_of_life_puts_the_timeout_off() {
    let mut conn = WsConn::new(JobId(1), 100);
    let r = conn.handle(Ok(Frame::Pong(Vec::new())), 9_000);
    assert!(!r.stop);
    assert!(r.reply.is_none());
    assert_eq!(conn.hb, 9_000);
    assert_eq!(conn.connected_at, 100);
    assert!(!conn.hb(19_000).stop);
    assert!(conn.hb(19_001).stop);
    let r = conn.handle(Ok(Frame::Ping(vec![1, 2, 3])), 18_000);
    assert!(!r.stop);
    assert!(matches!(r.reply, Some(Frame::Pong(p)) if p == vec![1, 2, 3]));
    assert_eq!(conn.hb, 18_000);
    assert!(!conn.hb(28_000).stop);
}

#[test]
fn other_frames_are_no_sign_of_life() {
    let mut conn = WsConn::new(JobId(1), 100);
    conn.handle(Ok(Frame::Text("x".to_string())), 105);
    conn.handle(Ok(Frame::Binary(vec![1])), 106);
    conn.handle(Ok(Frame::Nop), 107);
    assert_eq!(conn.hb, 100);
}

#[test]
fn text_and_binary_frames_are_sent_back() {
    let mut conn = WsConn::new(JobId(1), 0);
    conn.started();
    let r = conn.handle(Ok(Frame::Text("hello".to_string())), 1);
    assert!(!r.stop);
    assert!(matches!(r.reply, Some(Frame::Text(t)) if t == "hello"));
    let r = conn.handle(Ok(Frame::Binary(vec![9, 8])), 1);
    assert!(!r.stop);
    assert!(matches!(r.reply, Some(Frame::Binary(b)) if b == vec![9, 8]));
    let r = conn.handle(Ok(Frame::Nop), 1);
    assert!(!r.stop);
    assert!(r.reply.is_none());
    assert_eq!(conn.status, Status::Connected);
}

#[test]
fn a_close_frame_is_answered_and_stops_the_connection() {
    let mut conn = WsConn::new(JobId(1), 0);
    conn.started();
    let reason = CloseReason { code: 1000, description: Some("bye".to_string()) };
    let r = conn.handle(Ok(Frame::Close(Some(reason))), 1);
    assert!(r.stop);
    match r.reply {
        Some(Frame::Close(Some(reason))) => {
            assert_eq!(reason.code, 1000);
            assert_eq!(reason.description.as_deref(), Some("bye"));
        }
        _ => panic!("a close frame was expected"),
    }
    let r = conn.handle(Ok(Frame::Close(None)), 1);
    assert!(r.stop);
    assert!(matches!(r.reply, Some(Frame::Close(None))));
}

#[test]
fn a_continuation_or_a_broken_transport_stops_the_connection() {
    let mut conn = WsConn::new(JobId(1), 0);
    let r = conn.handle(Ok(Frame::Continuation), 1);
    assert!(r.stop);
    assert!(r.reply.is_none());
    let r = conn.handle(Err(ProtocolError), 1);
    assert!(r.stop);
    assert!(r.reply.is_none());
    assert_eq!(conn.hb, 0);
}

#[test]
fn a_stopped_connection_leaves_the_registry_and_never_comes_back() {
    let mut registry: FileProcessor<u32> = FileProcessor::new();
    let mut conn = WsConn::new(JobId(5), 0);
    registry.add_session(conn.id, 1);
    conn.started();
    let bye = conn.stopping();
    assert_eq!(bye.id, JobId(5));
    assert_eq!(conn.status, Status::Disconnected);
    registry.handle_remove_session(bye);
    assert!(registry.deliver(JobId(5), WsMessage(String::new())).is_none());
    assert!(conn.started().is_none());
    assert_eq!(conn.status, Status::Disconnected);
    conn.handle(Ok(Frame::Pong(Vec::new())), 3);
    assert_eq!(conn.status, Status::Disconnected);
    let again = conn.stopping();
    assert_eq!(again.id, JobId(5));
    registry.handle_remove_session(again);
    assert_eq!(conn.status, Status::Disconnected);
}

#[test]
fn a_connection_that_stops_before_it_connects_is_disconnected() {
    let mut conn = WsConn::new(JobId(5), 0);
    conn.stopping();
    assert_eq!(conn.status, Status::Disconnected);
    assert!(conn.started().is_none());
}

#[test]
fn a_delivered_message_goes_out_as_text() {
    let conn = WsConn::new(JobId(1), 0);
    let frame = conn.handle_message(WsMessage("{\"id\":1}".to_string()));
    assert!(matches!(frame, Frame::Text(t) if t == "{\"id\":1}"));
}

#[test]
fn reactions() {
    let r = Reaction::nothing();
    assert!(r.reply.is_none() && !r.stop);
    let r = Reaction::stop();
    assert!(r.reply.is_none() && r.stop);
    let r = Reaction::reply(Frame::Nop);
    assert!(matches!(r.reply, Some(Frame::Nop)) && !r.stop);
}

#[test]
fn a_session_takes_the_name_its_server_gives() {
    let mut session = WsSession::new(7);
    assert_eq!(session.id, "");
    assert_eq!(session.hb, 7);
    assert!(!session.started(Some("abc".to_string())));
    assert_eq!(session.id, "abc");
    assert_eq!(session.stopping().id, "abc");
    assert!(session.started(None));
    assert_eq!(session.id, "abc");
    assert_eq!(session.hb, 7);
}

#[test]
fn a_session_probes_with_an_empty_ping() {
    let session = WsSession::new(100);
    let r = session.hb(10_100);
    assert!(!r.stop);
    assert!(matches!(r.reply, Some(Frame::Ping(p)) if p.is_empty()));
    let r = session.hb(10_101);
    assert!(r.stop);
    assert!(r.reply.is_none());
}

#[test]
fn a_session_passes_over_what_its_client_says() {
    let mut session = WsSession::new(0);
    let r = session.handle(Ok(Frame::Text("hello".to_string())), 5);
    assert!(r.reply.is_none() && !r.stop);
    let r = session.handle(Ok(Frame::Binary(vec![1])), 5);
    assert!(r.reply.is_none() && !r.stop);
    let r = session.handle(Ok(Frame::Nop), 5);
    assert!(r.reply.is_none() && !r.stop);
    assert_eq!(session.hb, 0);
}

#[test]
fn a_session_answers_pings_and_minds_pongs() {
    let mut session = WsSession::new(0);
    let r = session.handle(Ok(Frame::Ping(vec![4])), 5);
    assert!(matches!(r.reply, Some(Frame::Pong(p)) if p == vec![4]));
    assert!(!r.stop);
    assert_eq!(session.hb, 5);
    let r = session.handle(Ok(Frame::Pong(vec![4])), 8);
    assert!(r.reply.is_none() && !r.stop);
    assert_eq!(session.hb, 8);
}

#[test]
fn a_session_stops_on_close_continuation_and_error() {
    let mut session = WsSession::new(0);
    let r = session.handle(Ok(Frame::Close(None)), 1);
    assert!(r.stop);
    assert!(matches!(r.reply, Some(Frame::Close(None))));
    let r = session.handle(Ok(Frame::Continuation), 1);
    assert!(r.stop && r.reply.is_none());
    let r = session.handle(Err(ProtocolError), 1);
    assert!(r.stop && r.reply.is_none());
}
