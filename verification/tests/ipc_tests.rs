use liminal_launcher::frames::{frame_text, FrameEvent, RecvError};
use liminal_launcher::handshake::{check_client, Rejection};
use liminal_launcher::jvm_ipc;
use liminal_launcher::jvm_ipc::{step_session, SessionError, SessionEvent, SessionState};
use liminal_launcher::token::{generate_auth_token, token_text};
use liminal_launcher::transition;
use liminal_launcher::transition::{
    answer_first_message, check_ready, initial_instance_rect, write_launch_args, AcceptError,
    ReadyError, ReadyEvent, Who,
};

fn s(text: &str) -> String {
    String::from(text)
}

fn auth(token: &str, version: u32) -> SessionEvent {
    SessionEvent::Received(jvm_ipc::Msg::Auth { token: s(token), protocol_version: version })
}

#[test]
fn tokens_are_letters_and_digits() {
    let token = generate_auth_token();
    assert_eq!(token.len(), 32);
    assert!(token.chars().all(|c| c.is_ascii_alphanumeric()));
    assert_ne!(token, generate_auth_token());
}

#[test]
fn token_bytes_read_as_characters() {
    assert_eq!(token_text(&vec![65, 122, 48]), "Az0");
    assert_eq!(token_text(&vec![]), "");
}

#[test]
fn messages_read_as_tagged_json() {
    let m = jvm_ipc::Msg::Auth { token: s("abc"), protocol_version: 1 };
    assert_eq!(m.to_wire(), r#"{"type":"auth","token":"abc","protocol_version":1}"#);
    assert_eq!(jvm_ipc::Msg::AuthOk.to_wire(), r#"{"type":"auth_ok"}"#);
    assert_eq!(
        jvm_ipc::Msg::AuthRejected { reason: s("bad token") }.to_wire(),
        r#"{"type":"auth_rejected","reason":"bad token"}"#
    );
    assert_eq!(
        jvm_ipc::Msg::Echo { payload: s("ping-0") }.to_wire(),
        r#"{"type":"echo","payload":"ping-0"}"#
    );
    assert_eq!(
        jvm_ipc::Msg::EchoReply { payload: s("ping-0") }.to_wire(),
        r#"{"type":"echo_reply","payload":"ping-0"}"#
    );
    assert_eq!(
        jvm_ipc::Msg::Shutdown { reason: s("x") }.to_wire(),
        r#"{"type":"shutdown","reason":"x"}"#
    );
    assert_eq!(jvm_ipc::Msg::Bye.to_wire(), r#"{"type":"bye"}"#);
    assert_eq!(
        transition::Msg::Ready { instance_name: s("A") }.to_wire(),
        r#"{"type":"ready","instance_name":"A"}"#
    );
    assert_eq!(transition::Msg::ShowWindow.to_wire(), r#"{"type":"show_window"}"#);
    assert_eq!(transition::Msg::Bye.to_wire(), r#"{"type":"bye"}"#);
    assert_eq!(transition::Msg::AuthOk.to_wire(), r#"{"type":"auth_ok"}"#);
    assert_eq!(
        transition::Msg::Auth { token: s("t"), protocol_version: 4294967295 }.to_wire(),
        r#"{"type":"auth","token":"t","protocol_version":4294967295}"#
    );
}

#[test]
fn message_strings_are_escaped() {
    let payload = "a\"b\\c\n\t\r\u{8}\u{c}\u{1}\u{1f}\u{7f}\u{e9}\u{1F600}/";
    let wire = jvm_ipc::Msg::Echo { payload: s(payload) }.to_wire();
    assert_eq!(
        wire,
        "{\"type\":\"echo\",\"payload\":\"a\\\"b\\\\c\\n\\t\\r\\b\\f\\u0001\\u001f\u{7f}\u{e9}\u{1F600}/\"}"
    );
    let value: serde_json::Value = serde_json::from_str(&wire).unwrap();
    assert_eq!(value["type"].as_str(), Some("echo"));
    assert_eq!(value["payload"].as_str(), Some(payload));
}

#[test]
fn every_control_character_is_read_back() {
    for code in 0u32..0x80 {
        let payload: String = char::from_u32(code).unwrap().to_string();
        let wire = transition::Msg::Shutdown { reason: payload.clone() }.to_wire();
        let value: serde_json::Value = serde_json::from_str(&wire).unwrap();
        assert_eq!(value["reason"].as_str(), Some(payload.as_str()));
    }
}

#[test]
fn only_text_frames_carry_messages() {
    assert_eq!(frame_text(FrameEvent::Text(s("{}"))), Ok(s("{}")));
    assert_eq!(frame_text(FrameEvent::TimedOut), Err(RecvError::TimedOut));
    assert_eq!(frame_text(FrameEvent::Ended), Err(RecvError::Ended));
    assert_eq!(frame_text(FrameEvent::SocketError), Err(RecvError::SocketError));
    assert_eq!(frame_text(FrameEvent::Close), Err(RecvError::ClosedByPeer));
    assert_eq!(frame_text(FrameEvent::Other), Err(RecvError::NotText));
    assert_eq!(RecvError::TimedOut.message(""), "timed out waiting for next message");
    assert_eq!(RecvError::Ended.message(""), "websocket closed unexpectedly");
    assert_eq!(RecvError::SocketError.message(""), "websocket error");
    assert_eq!(RecvError::ClosedByPeer.message(""), "websocket closed by peer mid-protocol");
    assert_eq!(RecvError::NotText.message("Ping"), "expected text frame, got Ping");
}

#[test]
fn the_token_counts_before_the_version() {
    assert_eq!(check_client(&s("t"), &s("t"), 1), Ok(()));
    assert_eq!(check_client(&s("t"), &s("u"), 2), Err(Rejection::BadToken));
    assert_eq!(check_client(&s("t"), &s("t"), 0), Err(Rejection::VersionMismatch { client: 0 }));
}

#[test]
fn a_good_session_passes() {
    let token = s("secret");
    let mut state = SessionState::AwaitAuth;
    let mut sent: Vec<String> = Vec::new();
    let reply = |i: usize| {
        SessionEvent::Received(jvm_ipc::Msg::EchoReply { payload: format!("ping-{}", i) })
    };
    let events = vec![
        auth("secret", 1),
        reply(0),
        reply(1),
        reply(2),
        SessionEvent::Received(jvm_ipc::Msg::Bye),
        SessionEvent::Exited { success: true },
    ];
    for event in events.iter() {
        let step = step_session(&token, state, event);
        assert!(!step.kill_child);
        sent.extend(step.send.iter().map(|m| m.to_wire()));
        state = step.state;
    }
    assert_eq!(state, SessionState::Passed);
    assert_eq!(
        sent,
        vec![
            s(r#"{"type":"auth_ok"}"#),
            s(r#"{"type":"echo","payload":"ping-0"}"#),
            s(r#"{"type":"echo","payload":"ping-1"}"#),
            s(r#"{"type":"echo","payload":"ping-2"}"#),
            s(r#"{"type":"shutdown","reason":"spike test complete"}"#),
        ]
    );
}

#[test]
fn a_stranger_is_turned_away() {
    let token = s("secret");
    let step = step_session(&token, SessionState::AwaitAuth, &auth("guess", 1));
    assert_eq!(step.state, SessionState::Failed(SessionError::Rejected(Rejection::BadToken)));
    assert!(!step.must_arrive);
    assert_eq!(step.send.len(), 1);
    assert_eq!(step.send[0].to_wire(), r#"{"type":"auth_rejected","reason":"bad token"}"#);

    let step = step_session(&token, SessionState::AwaitAuth, &auth("secret", 7));
    assert_eq!(
        step.send[0].to_wire(),
        r#"{"type":"auth_rejected","reason":"protocol_version mismatch: launcher=1, client=7"}"#
    );
    assert_eq!(
        SessionError::Rejected(Rejection::VersionMismatch { client: 7 }).message("", ""),
        "protocol_version mismatch: launcher=1, client=7"
    );

    let step = step_session(
        &token,
        SessionState::AwaitAuth,
        &SessionEvent::Received(jvm_ipc::Msg::Bye),
    );
    assert_eq!(step.state, SessionState::Failed(SessionError::NotAuth));
    assert!(step.send.is_empty());
    let step = step_session(&token, SessionState::AwaitAuth, &SessionEvent::ReceiveFailed);
    assert_eq!(step.state, SessionState::Failed(SessionError::NoAuth));
}

#[test]
fn a_bad_echo_fails_the_session() {
    let token = s("t");
    let at = SessionState::AwaitEcho { index: 1 };
    let wrong = SessionEvent::Received(jvm_ipc::Msg::EchoReply { payload: s("ping-0") });
    assert_eq!(
        step_session(&token, at, &wrong).state,
        SessionState::Failed(SessionError::EchoMismatch)
    );
    let other = SessionEvent::Received(jvm_ipc::Msg::Bye);
    assert_eq!(
        step_session(&token, at, &other).state,
        SessionState::Failed(SessionError::NotEchoReply)
    );
    assert_eq!(
        step_session(&token, at, &SessionEvent::ReceiveFailed).state,
        SessionState::Failed(SessionError::NoReply)
    );
}

#[test]
fn a_missing_goodbye_is_forgiven() {
    let token = s("t");
    let step = step_session(&token, SessionState::AwaitBye, &SessionEvent::ReceiveFailed);
    assert_eq!(step.state, SessionState::AwaitExit);
}

#[test]
fn a_stuck_child_is_killed() {
    let token = s("t");
    let step = step_session(&token, SessionState::AwaitExit, &SessionEvent::ExitTimedOut);
    assert!(step.kill_child);
    assert_eq!(step.state, SessionState::Failed(SessionError::Stuck));
    let step =
        step_session(&token, SessionState::AwaitExit, &SessionEvent::Exited { success: false });
    assert!(!step.kill_child);
    assert_eq!(step.state, SessionState::Failed(SessionError::BadExit));
    let step = step_session(&token, SessionState::AwaitExit, &SessionEvent::WaitFailed);
    assert_eq!(step.state, SessionState::Failed(SessionError::WaitFailed));
}

#[test]
fn session_errors_read_well() {
    assert_eq!(SessionError::NoAuth.message("", ""), "expected auth message");
    assert_eq!(SessionError::NotAuth.message("", "Bye"), "expected Auth message, got Bye");
    assert_eq!(
        SessionError::Rejected(Rejection::BadToken).message("", ""),
        "child sent wrong auth token (impersonation attempt?)"
    );
    assert_eq!(SessionError::NoReply.message("", "gone"), "gone");
    assert_eq!(
        SessionError::EchoMismatch.message("\"a\"", "\"b\""),
        "echo mismatch: sent \"a\", got \"b\""
    );
    assert_eq!(SessionError::NotEchoReply.message("", "Bye"), "expected EchoReply, got Bye");
    assert_eq!(SessionError::BadExit.message("", "1"), "child exited with non-zero status: 1");
    assert_eq!(SessionError::WaitFailed.message("", "x"), "error waiting for child: x");
    assert_eq!(
        SessionError::Stuck.message("", ""),
        "child failed to shut down within timeout (would orphan in production)"
    );
}

#[test]
fn the_test_client_is_told_where_to_connect() {
    assert_eq!(
        jvm_ipc::java_args(50123, &s("tok")),
        vec![
            s("-Dliminal.connect.address=ws://127.0.0.1:50123"),
            s("-Dliminal.auth.token=tok"),
            s("TestClient"),
        ]
    );
}

#[test]
fn instances_are_launched_with_their_place() {
    let mut rect = initial_instance_rect();
    let visible = write_launch_args(80, &s("tok"), Who::A, &rect, false);
    assert_eq!(
        visible,
        vec![
            s("-Dliminal.connect.address=ws://127.0.0.1:80"),
            s("-Dliminal.auth.token=tok"),
            s("-Dliminal.instance.name=A"),
            s("-Dliminal.instance.color=blue"),
            s("-Dliminal.window.x=240"),
            s("-Dliminal.window.y=120"),
            s("-Dliminal.window.width=960"),
            s("-Dliminal.window.height=640"),
            s("TestInstance"),
        ]
    );
    rect.left = -8;
    let hidden = write_launch_args(80, &s("tok"), Who::B, &rect, true);
    assert_eq!(hidden.len(), 10);
    assert_eq!(hidden[2], "-Dliminal.instance.name=B");
    assert_eq!(hidden[3], "-Dliminal.instance.color=red");
    assert_eq!(hidden[4], "-Dliminal.window.x=-8");
    assert_eq!(hidden[6], "-Dliminal.window.width=1208");
    assert_eq!(hidden[8], "-Dliminal.window.hidden=true");
    assert_eq!(hidden[9], "TestInstance");
}

#[test]
fn only_the_launched_instance_is_let_in() {
    let token = s("secret");
    let good = transition::Msg::Auth { token: s("secret"), protocol_version: 1 };
    let answer = answer_first_message(&token, &good);
    assert_eq!(answer.outcome, Ok(()));
    assert_eq!(answer.reply.unwrap().to_wire(), r#"{"type":"auth_ok"}"#);

    let old = transition::Msg::Auth { token: s("secret"), protocol_version: 12 };
    let answer = answer_first_message(&token, &old);
    let error = AcceptError::Rejected(Rejection::VersionMismatch { client: 12 });
    assert_eq!(answer.outcome, Err(error));
    assert_eq!(
        answer.reply.unwrap().to_wire(),
        r#"{"type":"auth_rejected","reason":"protocol_version mismatch (launcher=1, client=12)"}"#
    );
    assert_eq!(error.message(""), "protocol_version mismatch (launcher=1, client=12)");

    let bad = transition::Msg::Auth { token: s("x"), protocol_version: 1 };
    let answer = answer_first_message(&token, &bad);
    assert_eq!(answer.outcome, Err(AcceptError::Rejected(Rejection::BadToken)));
    assert_eq!(
        AcceptError::Rejected(Rejection::BadToken).message(""),
        "client sent wrong auth token"
    );

    let answer = answer_first_message(&token, &transition::Msg::Bye);
    assert_eq!(answer.outcome, Err(AcceptError::NotAuth));
    assert!(answer.reply.is_none());
    assert_eq!(AcceptError::NotAuth.message("Bye"), "expected Auth, got Bye");
}

#[test]
fn an_instance_is_ready_once_it_says_so() {
    let ready = transition::Msg::Ready { instance_name: s("whatever") };
    assert_eq!(check_ready(&ReadyEvent::Received(ready)), Ok(()));
    assert_eq!(
        check_ready(&ReadyEvent::Received(transition::Msg::Bye)),
        Err(ReadyError::NotReady)
    );
    assert_eq!(check_ready(&ReadyEvent::TimedOut), Err(ReadyError::TimedOut));
    assert_eq!(check_ready(&ReadyEvent::Disconnected), Err(ReadyError::Disconnected));
    assert_eq!(ReadyError::TimedOut.message(Who::A, ""), "A did not send ready within 30s");
    assert_eq!(ReadyError::Disconnected.message(Who::B, ""), "B disconnected before ready");
    assert_eq!(ReadyError::NotReady.message(Who::A, "Bye"), "expected Ready from A, got Bye");
}

#[test]
fn instances_have_titles_and_farewells() {
    assert_eq!(Who::A.window_title(), "Liminal Test Instance A");
    assert_eq!(Who::B.window_title(), "Liminal Test Instance B");
    assert_eq!(
        Who::A.shutdown_request().to_wire(),
        r#"{"type":"shutdown","reason":"transition to B"}"#
    );
    assert_eq!(
        Who::B.shutdown_request().to_wire(),
        r#"{"type":"shutdown","reason":"spike complete"}"#
    );
}
