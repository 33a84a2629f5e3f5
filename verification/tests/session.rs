use event_relay::error::RelayError;
use event_relay::server::SendMessageRequest;
use event_relay::session::{
    CloseReason, Command, Frame, Phase, ProtocolError, WsSession, CLIENT_TIMEOUT, HEARTBEAT_INTERVAL,
};

const SECOND: u64 = 1_000_000_000;

fn active(id: usize, now: u64) -> WsSession {
    let mut session = WsSession::new("client".to_string(), now);
    assert!(session.joined(Some(id)).is_empty());
    session
}

fn show(commands: &[Command]) -> String {
    format!("{:?}", commands)
}

#[test]
fn heartbeat_constants_are_five_and_ten_seconds() {
    assert_eq!(HEARTBEAT_INTERVAL, 5 * SECOND);
    assert_eq!(CLIENT_TIMEOUT, 10 * SECOND);
}

#[test]
fn new_session_is_connecting() {
    let session = WsSession::new("alice".to_string(), 77);
    assert_eq!(session.id, 0);
    assert_eq!(session.client_id, "alice");
    assert_eq!(session.hb, 77);
    assert_eq!(session.phase, Phase::Connecting);
}

#[test]
fn started_asks_for_timer_and_registration() {
    let session = WsSession::new("alice".to_string(), 0);
    let commands = session.started();
    assert_eq!(commands.len(), 2);
    assert!(matches!(commands[0], Command::Heartbeat(HEARTBEAT_INTERVAL)));
    assert!(matches!(&commands[1], Command::Join(id) if id == "alice"));
    assert_eq!(session.phase, Phase::Connecting);
}

#[test]
fn joined_with_a_number_makes_the_session_active() {
    let mut session = WsSession::new("alice".to_string(), 5);
    let commands = session.joined(Some(12));
    assert!(commands.is_empty());
    assert_eq!(session.id, 12);
    assert_eq!(session.phase, Phase::Active);
    assert_eq!(session.hb, 5);
    assert_eq!(session.client_id, "alice");
}

#[test]
fn joined_without_a_number_ends_the_session() {
    let mut session = WsSession::new("alice".to_string(), 5);
    let commands = session.joined(None);
    assert_eq!(show(&commands), "[Stop(None)]");
    assert_eq!(session.phase, Phase::Terminated);
    assert_eq!(session.id, 0);
    assert!(session.stopping().is_empty());
    assert_eq!(session.phase, Phase::Terminated);
}

#[test]
fn joined_twice_keeps_the_first_number() {
    let mut session = active(3, 0);
    assert!(session.joined(Some(9)).is_empty());
    assert_eq!(session.id, 3);
    assert!(session.joined(None).is_empty());
    assert_eq!(session.phase, Phase::Active);
}

#[test]
fn heartbeat_probes_a_live_peer() {
    let mut session = active(1, 100);
    let commands = session.heartbeat(100 + 5 * SECOND);
    assert_eq!(show(&commands), "[Ping([])]");
    assert_eq!(session.phase, Phase::Active);
    assert_eq!(session.hb, 100);
}

#[test]
fn heartbeat_at_exactly_the_timeout_still_probes() {
    let mut session = active(1, 100);
    let commands = session.heartbeat(100 + CLIENT_TIMEOUT);
    assert_eq!(show(&commands), "[Ping([])]");
    assert_eq!(session.phase, Phase::Active);
}

#[test]
fn heartbeat_past_the_timeout_ends_the_session() {
    let mut session = active(4, 100);
    let commands = session.heartbeat(100 + CLIENT_TIMEOUT + 1);
    assert_eq!(show(&commands), "[Leave(Disconnect { id: 4 }), Stop(Some(HeartbeatTimeout))]");
    assert_eq!(session.phase, Phase::Terminated);
    assert!(session.stopping().is_empty());
    assert!(session.heartbeat(100 + 3 * CLIENT_TIMEOUT).is_empty());
}

#[test]
fn heartbeat_with_a_clock_behind_the_last_sign_of_life_probes() {
    let mut session = active(1, 50 * SECOND);
    let commands = session.heartbeat(0);
    assert_eq!(show(&commands), "[Ping([])]");
    assert_eq!(session.phase, Phase::Active);
}

#[test]
fn heartbeat_near_the_end_of_the_clock_does_not_overflow() {
    let mut session = active(1, 0);
    let commands = session.heartbeat(u64::MAX);
    assert_eq!(show(&commands), "[Leave(Disconnect { id: 1 }), Stop(Some(HeartbeatTimeout))]");
    let mut session = active(1, u64::MAX);
    assert_eq!(show(&session.heartbeat(u64::MAX)), "[Ping([])]");
}

#[test]
fn heartbeat_before_joining_does_nothing() {
    let mut session = WsSession::new("alice".to_string(), 0);
    assert!(session.heartbeat(100 * SECOND).is_empty());
    assert_eq!(session.phase, Phase::Connecting);
}

#[test]
fn ping_is_answered_and_counts_as_a_sign_of_life() {
    let mut session = active(1, 0);
    let commands = session.handle(Ok(Frame::Ping(vec![1, 2, 3])), 9 * SECOND);
    assert_eq!(show(&commands), "[Pong([1, 2, 3])]");
    assert_eq!(session.hb, 9 * SECOND);
    assert_eq!(show(&session.heartbeat(19 * SECOND)), "[Ping([])]");
    assert_eq!(session.phase, Phase::Active);
}

#[test]
fn pong_counts_as_a_sign_of_life() {
    let mut session = active(1, 0);
    let commands = session.handle(Ok(Frame::Pong(vec![])), 8 * SECOND);
    assert!(commands.is_empty());
    assert_eq!(session.hb, 8 * SECOND);
    assert_eq!(session.phase, Phase::Active);
}

#[test]
fn session_that_answers_every_probe_stays_active() {
    let mut session = active(1, 0);
    let mut now = 0;
    for _ in 0..1000 {
        now += HEARTBEAT_INTERVAL;
        assert_eq!(show(&session.heartbeat(now)), "[Ping([])]");
        assert!(session.handle(Ok(Frame::Pong(vec![])), now + 1).is_empty());
    }
    assert_eq!(session.phase, Phase::Active);
}

#[test]
fn session_that_answers_no_probe_is_ended_at_the_third_beat() {
    let mut session = active(6, 0);
    assert_eq!(show(&session.heartbeat(5 * SECOND + 1)), "[Ping([])]");
    assert_eq!(show(&session.heartbeat(10 * SECOND + 2)), "[Leave(Disconnect { id: 6 }), Stop(Some(HeartbeatTimeout))]");
    assert_eq!(session.phase, Phase::Terminated);
}

#[test]
fn text_does_not_count_as_a_sign_of_life() {
    let mut session = active(1, 0);
    session.handle(Ok(Frame::Text("{}".to_string())), 9 * SECOND);
    assert_eq!(session.hb, 0);
    let commands = session.heartbeat(10 * SECOND + 1);
    assert_eq!(show(&commands), "[Leave(Disconnect { id: 1 }), Stop(Some(HeartbeatTimeout))]");
}

#[test]
fn text_is_trimmed_and_forwarded() {
    let mut session = active(5, 0);
    let commands = session.handle(Ok(Frame::Text("  {\"x\": 1}\r\n".to_string())), 1);
    assert_eq!(commands.len(), 1);
    match &commands[0] {
        Command::Relay(request) => {
            assert_eq!(request.id, 5);
            assert_eq!(request.msg, "{\"x\": 1}");
        }
        other => panic!("unexpected command {:?}", other),
    }
    assert_eq!(session.phase, Phase::Active);
}

#[test]
fn text_is_forwarded_without_validation() {
    let mut session = active(5, 0);
    for (sent, forwarded) in [
        ("not json at all", "not json at all"),
        ("", ""),
        (" \t\n ", ""),
        ("\u{a0}\u{2003}inner  space\u{3000}\u{85}", "inner  space"),
        ("\u{200b}zero width stays\u{200b}", "\u{200b}zero width stays\u{200b}"),
        ("x", "x"),
    ] {
        let commands = session.handle(Ok(Frame::Text(sent.to_string())), 1);
        assert_eq!(commands.len(), 1);
        match &commands[0] {
            Command::Relay(request) => {
                assert_eq!(request.id, 5);
                assert_eq!(request.msg, forwarded);
            }
            other => panic!("unexpected command {:?}", other),
        }
    }
}

#[test]
fn dispatch_names_the_session() {
    let session = active(8, 0);
    let request = session.dispatch(" kept as given ");
    assert_eq!(request.id, 8);
    assert_eq!(request.msg, " kept as given ");
}

#[test]
fn binary_and_empty_frames_are_passed_over() {
    let mut session = active(1, 3);
    assert!(session.handle(Ok(Frame::Binary(vec![0, 255])), 9).is_empty());
    assert!(session.handle(Ok(Frame::Nop), 9).is_empty());
    assert_eq!(session.phase, Phase::Active);
    assert_eq!(session.hb, 3);
}

#[test]
fn close_frame_is_echoed_and_ends_the_session() {
    let mut session = active(2, 0);
    let reason = CloseReason { code: 1000, description: Some("bye".to_string()) };
    let commands = session.handle(Ok(Frame::Close(Some(reason))), 1);
    assert_eq!(
        show(&commands),
        "[Close(Some(CloseReason { code: 1000, description: Some(\"bye\") })), Stop(None)]"
    );
    assert_eq!(session.phase, Phase::Closing);
    let commands = session.stopping();
    assert_eq!(show(&commands), "[Leave(Disconnect { id: 2 })]");
    assert_eq!(session.phase, Phase::Terminated);
    assert!(session.stopping().is_empty());
}

#[test]
fn close_frame_without_a_reason_ends_the_session() {
    let mut session = active(2, 0);
    let commands = session.handle(Ok(Frame::Close(None)), 1);
    assert_eq!(show(&commands), "[Close(None), Stop(None)]");
    assert_eq!(session.phase, Phase::Closing);
}

#[test]
fn transport_error_ends_the_session() {
    let mut session = active(2, 0);
    let commands = session.handle(Err(ProtocolError), 1);
    assert_eq!(show(&commands), "[Stop(Some(TransportError))]");
    assert_eq!(session.phase, Phase::Closing);
    assert_eq!(show(&session.stopping()), "[Leave(Disconnect { id: 2 })]");
}

#[test]
fn continuation_frame_ends_the_session() {
    let mut session = active(2, 0);
    let commands = session.handle(Ok(Frame::Continuation), 1);
    assert_eq!(show(&commands), "[Stop(None)]");
    assert_eq!(session.phase, Phase::Closing);
}

#[test]
fn frames_are_not_taken_before_joining_or_after_closing() {
    let mut session = WsSession::new("alice".to_string(), 0);
    assert!(session.handle(Ok(Frame::Ping(vec![1])), 5).is_empty());
    assert!(session.handle(Ok(Frame::Text("{}".to_string())), 5).is_empty());
    assert!(session.handle(Err(ProtocolError), 5).is_empty());
    assert_eq!(session.phase, Phase::Connecting);
    assert_eq!(session.hb, 0);

    let mut session = active(1, 0);
    session.handle(Ok(Frame::Close(None)), 1);
    assert!(session.handle(Ok(Frame::Ping(vec![1])), 5).is_empty());
    assert!(session.handle(Ok(Frame::Text("{}".to_string())), 5).is_empty());
    assert!(session.heartbeat(100 * SECOND).is_empty());
    assert_eq!(session.phase, Phase::Closing);
    assert_eq!(session.hb, 0);
}

#[test]
fn stopping_an_active_session_takes_leave_once() {
    let mut session = active(3, 0);
    assert_eq!(show(&session.stopping()), "[Leave(Disconnect { id: 3 })]");
    assert_eq!(session.phase, Phase::Terminated);
    assert!(session.stopping().is_empty());
    assert!(session.handle(Ok(Frame::Ping(vec![])), 1).is_empty());
}

#[test]
fn stopping_before_joining_takes_no_leave() {
    let mut session = WsSession::new("alice".to_string(), 0);
    assert!(session.stopping().is_empty());
    assert_eq!(session.phase, Phase::Terminated);
    assert!(session.joined(Some(4)).is_empty());
    assert_eq!(session.phase, Phase::Terminated);
    assert_eq!(session.id, 0);
}

#[test]
fn pushed_message_goes_out_unchanged() {
    let session = active(1, 0);
    let commands = session.deliver(SendMessageRequest("  {\"a\":1}  ".to_string()));
    assert_eq!(commands.len(), 1);
    assert!(matches!(&commands[0], Command::Text(text) if text == "  {\"a\":1}  "));
}

#[test]
fn stop_causes_are_told_apart() {
    let mut silent = active(1, 0);
    let commands = silent.heartbeat(11 * SECOND);
    assert!(matches!(commands[1], Command::Stop(Some(RelayError::HeartbeatTimeout))));
    let mut broken = active(1, 0);
    let commands = broken.handle(Err(ProtocolError), 0);
    assert!(matches!(commands[0], Command::Stop(Some(RelayError::TransportError))));
}

#[test]
fn exactly_the_unicode_white_space_is_trimmed() {
    let white = |c: char| {
        matches!(
            c,
            '\u{9}'..='\u{d}'
                | ' '
                | '\u{85}'
                | '\u{a0}'
                | '\u{1680}'
                | '\u{2000}'..='\u{200a}'
                | '\u{2028}'
                | '\u{2029}'
                | '\u{202f}'
                | '\u{205f}'
                | '\u{3000}'
        )
    };
    let mut session = active(1, 0);
    let mut trimmed = 0;
    for code in 0..=0x10ffffu32 {
        let Some(c) = char::from_u32(code) else { continue };
        let sent = format!("{}x{}", c, c);
        let commands = session.handle(Ok(Frame::Text(sent.clone())), 0);
        let Command::Relay(request) = &commands[0] else { panic!("no relay for {:?}", c) };
        if white(c) {
            assert_eq!(request.msg, "x", "character {:?}", c);
            trimmed += 1;
        } else {
            assert_eq!(request.msg, sent, "character {:?}", c);
        }
    }
    assert_eq!(trimmed, 25);
}
