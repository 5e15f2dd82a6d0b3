//! The conversation with a single child process: it authenticates, echoes a few
//! messages, is told to shut down and exits.

use crate::handshake::{
    check_client, mismatch_reason, verdict, write_mismatch_reason, Rejection, PROTOCOL_VERSION,
};
use crate::text::{
    a_numeral_tells_its_number, decimal, digit_char, push_decimal, tells_number, texts,
    texts_are_the_strings,
};
use crate::wire::{
    auth_tail, auth_tail_is_injective, auth_text, auth_text_reads_back, field_tail,
    field_tail_is_injective, field_text, field_text_reads_back, frame_splits, framed, is_plain,
    quote_free, read_object, texts_are_framed, unit_tail, unit_text, unit_text_reads_back,
    write_auth, write_field, write_unit, JsonValue,
};
use vstd::prelude::*;
use vstd::string::*;

verus! {

/// Time allowed for the child to connect.
pub const CONNECT_TIMEOUT_SECS: u64 = 15;

/// Time allowed for each message.
pub const MESSAGE_TIMEOUT_SECS: u64 = 5;

/// Time allowed for the child to exit once told to shut down.
pub const SHUTDOWN_TIMEOUT_SECS: u64 = 10;

/// Number of echo round trips.
pub const ECHO_ROUND_TRIPS: usize = 3;

/// A message of this conversation.
#[derive(Debug)]
pub enum Msg {
    Auth { token: String, protocol_version: u32 },
    AuthOk,
    AuthRejected { reason: String },
    Echo { payload: String },
    EchoReply { payload: String },
    Shutdown { reason: String },
    Bye,
}

/// What a message says.
pub enum MsgView {
    Auth { token: Seq<char>, protocol_version: u32 },
    AuthOk,
    AuthRejected { reason: Seq<char> },
    Echo { payload: Seq<char> },
    EchoReply { payload: Seq<char> },
    Shutdown { reason: Seq<char> },
    Bye,
}

impl View for Msg {
    type V = MsgView;

    open spec fn view(&self) -> MsgView {
        match self {
            Msg::Auth { token, protocol_version } => MsgView::Auth {
                token: token@,
                protocol_version: *protocol_version,
            },
            Msg::AuthOk => MsgView::AuthOk,
            Msg::AuthRejected { reason } => MsgView::AuthRejected { reason: reason@ },
            Msg::Echo { payload } => MsgView::Echo { payload: payload@ },
            Msg::EchoReply { payload } => MsgView::EchoReply { payload: payload@ },
            Msg::Shutdown { reason } => MsgView::Shutdown { reason: reason@ },
            Msg::Bye => MsgView::Bye,
        }
    }
}

impl MsgView {
    /// The message as JSON text.
    pub open spec fn wire(self) -> Seq<char> {
        match self {
            MsgView::Auth { token, protocol_version } => auth_text(token, protocol_version),
            MsgView::AuthOk => unit_text("auth_ok"@),
            MsgView::AuthRejected { reason } => field_text("auth_rejected"@, "reason"@, reason),
            MsgView::Echo { payload } => field_text("echo"@, "payload"@, payload),
            MsgView::EchoReply { payload } => field_text("echo_reply"@, "payload"@, payload),
            MsgView::Shutdown { reason } => field_text("shutdown"@, "reason"@, reason),
            MsgView::Bye => unit_text("bye"@),
        }
    }

    /// The tag of the message.
    pub open spec fn tag(self) -> Seq<char> {
        match self {
            MsgView::Auth { .. } => "auth"@,
            MsgView::AuthOk => "auth_ok"@,
            MsgView::AuthRejected { .. } => "auth_rejected"@,
            MsgView::Echo { .. } => "echo"@,
            MsgView::EchoReply { .. } => "echo_reply"@,
            MsgView::Shutdown { .. } => "shutdown"@,
            MsgView::Bye => "bye"@,
        }
    }
}

impl Msg {
    /// Writes the message as JSON text.
    pub fn to_wire(&self) -> (res: String)
        ensures
            res@ == self@.wire(),
    {
        match self {
            Msg::Auth { token, protocol_version } => write_auth(token, *protocol_version),
            Msg::AuthOk => write_unit("auth_ok"),
            Msg::AuthRejected { reason } => write_field("auth_rejected", "reason", reason),
            Msg::Echo { payload } => write_field("echo", "payload", payload),
            Msg::EchoReply { payload } => write_field("echo_reply", "payload", payload),
            Msg::Shutdown { reason } => write_field("shutdown", "reason", reason),
            Msg::Bye => write_unit("bye"),
        }
    }
}

/// Arguments of the Java test client.
pub fn java_args(port: u16, auth_token: &String) -> (res: Vec<String>)
    ensures
        texts(res@) == seq![
            "-Dliminal.connect.address=ws://127.0.0.1:"@ + decimal(port as nat),
            "-Dliminal.auth.token="@ + auth_token@,
            "TestClient"@,
        ],
{
    let mut address = String::from_str("-Dliminal.connect.address=ws://127.0.0.1:");
    push_decimal(&mut address, port as u64);
    let mut out: Vec<String> = Vec::new();
    out.push(address);
    out.push(String::from_str("-Dliminal.auth.token=").concat(auth_token.as_str()));
    out.push(String::from_str("TestClient"));
    out
}

/// Where the conversation stands.
#[derive(Debug, Clone, Copy, PartialEq, Eq, Structural)]
pub enum SessionState {
    AwaitAuth,
    /// Waiting for the reply to the echo with this number.
    AwaitEcho { index: usize },
    AwaitBye,
    AwaitExit,
    Passed,
    Failed(SessionError),
}

/// Why the conversation failed.
#[derive(Debug, Clone, Copy, PartialEq, Eq, Structural)]
pub enum SessionError {
    /// No message came where the client should have authenticated.
    NoAuth,
    /// The first message was another one.
    NotAuth,
    Rejected(Rejection),
    /// No message came where a reply was due.
    NoReply,
    EchoMismatch,
    NotEchoReply,
    /// The child exited with a failure.
    BadExit,
    /// The child could not be waited for.
    WaitFailed,
    /// The child did not exit in time.
    Stuck,
}

/// What the conversation reacts to.
#[derive(Debug)]
pub enum SessionEvent {
    Received(Msg),
    /// No message came.
    ReceiveFailed,
    Exited { success: bool },
    WaitFailed,
    ExitTimedOut,
}

/// What an event says.
pub enum SessionEventView {
    Received(MsgView),
    ReceiveFailed,
    Exited { success: bool },
    WaitFailed,
    ExitTimedOut,
}

impl View for SessionEvent {
    type V = SessionEventView;

    open spec fn view(&self) -> SessionEventView {
        match self {
            SessionEvent::Received(msg) => SessionEventView::Received(msg@),
            SessionEvent::ReceiveFailed => SessionEventView::ReceiveFailed,
            SessionEvent::Exited { success } => SessionEventView::Exited { success: *success },
            SessionEvent::WaitFailed => SessionEventView::WaitFailed,
            SessionEvent::ExitTimedOut => SessionEventView::ExitTimedOut,
        }
    }
}

/// What follows an event.
#[derive(Debug)]
pub struct SessionStep {
    /// Messages to send, in this order.
    pub send: Vec<Msg>,
    /// Whether the conversation fails where sending does.
    pub must_arrive: bool,
    /// Whether the child is to be killed.
    pub kill_child: bool,
    pub state: SessionState,
}

/// What a step says.
pub struct SessionStepView {
    pub send: Seq<MsgView>,
    pub must_arrive: bool,
    pub kill_child: bool,
    pub state: SessionState,
}

/// What the messages of a list say.
pub open spec fn msgs(v: Seq<Msg>) -> Seq<MsgView> {
    v.map_values(|m: Msg| m@)
}

impl View for SessionStep {
    type V = SessionStepView;

    open spec fn view(&self) -> SessionStepView {
        SessionStepView {
            send: msgs(self.send@),
            must_arrive: self.must_arrive,
            kill_child: self.kill_child,
            state: self.state,
        }
    }
}

/// The payload of the echo with the given number.
pub open spec fn echo_payload(index: int) -> Seq<char> {
    "ping-"@ + decimal(index as nat)
}

/// What a client is told that was turned away.
pub open spec fn rejection_reason(rejection: Rejection) -> Seq<char> {
    match rejection {
        Rejection::BadToken => "bad token"@,
        Rejection::VersionMismatch { client } => mismatch_reason(
            "protocol_version mismatch: launcher="@,
            ", client="@,
            ""@,
            client,
        ),
    }
}

/// Nothing to send, on to another state.
pub open spec fn silent(state: SessionState) -> SessionStepView {
    SessionStepView { send: seq![], must_arrive: true, kill_child: false, state }
}

/// What is sent once `done` echoes have come back: the next one, or the request
/// to shut down.
pub open spec fn next_request(done: int) -> MsgView {
    if done < ECHO_ROUND_TRIPS {
        MsgView::Echo { payload: echo_payload(done) }
    } else {
        MsgView::Shutdown { reason: "spike test complete"@ }
    }
}

/// What is waited for once `done` echoes have come back.
pub open spec fn next_wait(done: int) -> SessionState {
    if done < ECHO_ROUND_TRIPS {
        SessionState::AwaitEcho { index: done as usize }
    } else {
        SessionState::AwaitBye
    }
}

/// The conversation waits for an event of this kind.
pub open spec fn expects(state: SessionState, event: SessionEventView) -> bool {
    match state {
        SessionState::AwaitAuth | SessionState::AwaitBye => event is Received
            || event is ReceiveFailed,
        SessionState::AwaitEcho { index } => index < ECHO_ROUND_TRIPS && (event is Received
            || event is ReceiveFailed),
        SessionState::AwaitExit => event is Exited || event is WaitFailed || event is ExitTimedOut,
        SessionState::Passed | SessionState::Failed(_) => false,
    }
}

/// The launcher's side of the conversation.
pub open spec fn session_step(
    auth_token: Seq<char>,
    state: SessionState,
    event: SessionEventView,
) -> SessionStepView {
    match state {
        SessionState::AwaitAuth => match event {
            SessionEventView::Received(MsgView::Auth { token, protocol_version }) => match verdict(
                auth_token,
                token,
                protocol_version,
            ) {
                Ok(_) => SessionStepView {
                    send: seq![MsgView::AuthOk, next_request(0)],
                    must_arrive: true,
                    kill_child: false,
                    state: next_wait(0),
                },
                Err(rejection) => SessionStepView {
                    send: seq![MsgView::AuthRejected { reason: rejection_reason(rejection) }],
                    must_arrive: false,
                    kill_child: false,
                    state: SessionState::Failed(SessionError::Rejected(rejection)),
                },
            },
            SessionEventView::Received(_) => silent(SessionState::Failed(SessionError::NotAuth)),
            _ => silent(SessionState::Failed(SessionError::NoAuth)),
        },
        SessionState::AwaitEcho { index } => match event {
            SessionEventView::Received(MsgView::EchoReply { payload }) => if payload
                == echo_payload(index as int) {
                SessionStepView {
                    send: seq![next_request(index + 1)],
                    must_arrive: true,
                    kill_child: false,
                    state: next_wait(index + 1),
                }
            } else {
                silent(SessionState::Failed(SessionError::EchoMismatch))
            },
            SessionEventView::Received(_) => silent(
                SessionState::Failed(SessionError::NotEchoReply),
            ),
            _ => silent(SessionState::Failed(SessionError::NoReply)),
        },
        SessionState::AwaitBye => silent(SessionState::AwaitExit),
        SessionState::AwaitExit => match event {
            SessionEventView::Exited { success } => if success {
                silent(SessionState::Passed)
            } else {
                silent(SessionState::Failed(SessionError::BadExit))
            },
            SessionEventView::ExitTimedOut => SessionStepView {
                kill_child: true,
                ..silent(SessionState::Failed(SessionError::Stuck))
            },
            _ => silent(SessionState::Failed(SessionError::WaitFailed)),
        },
        SessionState::Passed | SessionState::Failed(_) => silent(state),
    }
}

/// The payload of the echo with the given number.
pub fn write_echo_payload(index: usize) -> (res: String)
    ensures
        res@ == echo_payload(index as int),
{
    let mut out = String::from_str("ping-");
    push_decimal(&mut out, index as u64);
    out
}

/// What a client is told that was turned away.
pub fn write_rejection_reason(rejection: Rejection) -> (res: String)
    ensures
        res@ == rejection_reason(rejection),
{
    match rejection {
        Rejection::BadToken => String::from_str("bad token"),
        Rejection::VersionMismatch { client } => write_mismatch_reason(
            "protocol_version mismatch: launcher=",
            ", client=",
            "",
            client,
        ),
    }
}

fn request_after(done: usize) -> (res: Msg)
    ensures
        res@ == next_request(done as int),
{
    if done < ECHO_ROUND_TRIPS {
        Msg::Echo { payload: write_echo_payload(done) }
    } else {
        Msg::Shutdown { reason: String::from_str("spike test complete") }
    }
}

fn wait_after(done: usize) -> (res: SessionState)
    ensures
        res == next_wait(done as int),
{
    if done < ECHO_ROUND_TRIPS {
        SessionState::AwaitEcho { index: done }
    } else {
        SessionState::AwaitBye
    }
}

fn quiet(state: SessionState) -> (res: SessionStep)
    ensures
        res@ == silent(state),
{
    let send: Vec<Msg> = Vec::new();
    assert(msgs(send@) =~= seq![]);
    SessionStep { send, must_arrive: true, kill_child: false, state }
}

/// Takes the launcher's side of the conversation one event further.
pub fn step_session(auth_token: &String, state: SessionState, event: &SessionEvent) -> (res:
    SessionStep)
    requires
        expects(state, event@),
    ensures
        res@ == session_step(auth_token@, state, event@),
{
    match state {
        SessionState::AwaitAuth => match event {
            SessionEvent::Received(Msg::Auth { token, protocol_version }) => {
                let mut send: Vec<Msg> = Vec::new();
                match check_client(auth_token, token, *protocol_version) {
                    Ok(_) => {
                        send.push(Msg::AuthOk);
                        send.push(request_after(0));
                        assert(msgs(send@) =~= seq![MsgView::AuthOk, next_request(0)]);
                        SessionStep {
                            send,
                            must_arrive: true,
                            kill_child: false,
                            state: wait_after(0),
                        }
                    },
                    Err(rejection) => {
                        send.push(Msg::AuthRejected { reason: write_rejection_reason(rejection) });
                        assert(msgs(send@) =~= seq![
                            MsgView::AuthRejected { reason: rejection_reason(rejection) },
                        ]);
                        SessionStep {
                            send,
                            must_arrive: false,
                            kill_child: false,
                            state: SessionState::Failed(SessionError::Rejected(rejection)),
                        }
                    },
                }
            },
            SessionEvent::Received(_) => quiet(SessionState::Failed(SessionError::NotAuth)),
            _ => quiet(SessionState::Failed(SessionError::NoAuth)),
        },
        SessionState::AwaitEcho { index } => match event {
            SessionEvent::Received(Msg::EchoReply { payload }) => {
                let sent = write_echo_payload(index);
                if *payload == sent {
                    let mut send: Vec<Msg> = Vec::new();
                    send.push(request_after(index + 1));
                    assert(msgs(send@) =~= seq![next_request(index + 1)]);
                    SessionStep {
                        send,
                        must_arrive: true,
                        kill_child: false,
                        state: wait_after(index + 1),
                    }
                } else {
                    quiet(SessionState::Failed(SessionError::EchoMismatch))
                }
            },
            SessionEvent::Received(_) => quiet(SessionState::Failed(SessionError::NotEchoReply)),
            _ => quiet(SessionState::Failed(SessionError::NoReply)),
        },
        SessionState::AwaitBye => quiet(SessionState::AwaitExit),
        SessionState::AwaitExit => match event {
            SessionEvent::Exited { success } => if *success {
                quiet(SessionState::Passed)
            } else {
                quiet(SessionState::Failed(SessionError::BadExit))
            },
            SessionEvent::ExitTimedOut => {
                let mut step = quiet(SessionState::Failed(SessionError::Stuck));
                step.kill_child = true;
                step
            },
            _ => quiet(SessionState::Failed(SessionError::WaitFailed)),
        },
        SessionState::Passed | SessionState::Failed(_) => quiet(state),
    }
}

impl SessionError {
    /// How the error reads, where `sent` and `got` are how the message sent and
    /// what came instead read.
    pub open spec fn spec_message(self, sent: Seq<char>, got: Seq<char>) -> Seq<char> {
        match self {
            SessionError::NoAuth => "expected auth message"@,
            SessionError::NotAuth => "expected Auth message, got "@ + got,
            SessionError::Rejected(Rejection::BadToken) =>
                "child sent wrong auth token (impersonation attempt?)"@,
            SessionError::Rejected(rejection) => rejection_reason(rejection),
            SessionError::NoReply => got,
            SessionError::EchoMismatch => "echo mismatch: sent "@ + sent + ", got "@ + got,
            SessionError::NotEchoReply => "expected EchoReply, got "@ + got,
            SessionError::BadExit => "child exited with non-zero status: "@ + got,
            SessionError::WaitFailed => "error waiting for child: "@ + got,
            SessionError::Stuck =>
                "child failed to shut down within timeout (would orphan in production)"@,
        }
    }

    /// How the error reads, where `sent` and `got` are how the message sent and
    /// what came instead read.
    pub fn message(&self, sent: &str, got: &str) -> (res: String)
        ensures
            res@ == self.spec_message(sent@, got@),
    {
        match self {
            SessionError::NoAuth => String::from_str("expected auth message"),
            SessionError::NotAuth => String::from_str("expected Auth message, got ").concat(got),
            SessionError::Rejected(rejection) => match rejection {
                Rejection::BadToken => String::from_str(
                    "child sent wrong auth token (impersonation attempt?)",
                ),
                Rejection::VersionMismatch { .. } => write_rejection_reason(*rejection),
            },
            SessionError::NoReply => String::from_str(got),
            SessionError::EchoMismatch => String::from_str("echo mismatch: sent ").concat(
                sent,
            ).concat(", got ").concat(got),
            SessionError::NotEchoReply => String::from_str("expected EchoReply, got ").concat(got),
            SessionError::BadExit => String::from_str(
                "child exited with non-zero status: ",
            ).concat(got),
            SessionError::WaitFailed => String::from_str("error waiting for child: ").concat(got),
            SessionError::Stuck => String::from_str(
                "child failed to shut down within timeout (would orphan in production)",
            ),
        }
    }
}

impl MsgView {
    /// What follows the tag in the message's text.
    pub open spec fn tail(self) -> Seq<char> {
        match self {
            MsgView::Auth { token, protocol_version } => auth_tail(token, protocol_version),
            MsgView::AuthOk => unit_tail(),
            MsgView::AuthRejected { reason } => field_tail("reason"@, reason),
            MsgView::Echo { payload } => field_tail("payload"@, payload),
            MsgView::EchoReply { payload } => field_tail("payload"@, payload),
            MsgView::Shutdown { reason } => field_tail("reason"@, reason),
            MsgView::Bye => unit_tail(),
        }
    }
}

/// Every message's text carries its tag under `type`, first.
pub proof fn every_message_is_tagged(m: MsgView)
    ensures
        m.wire() == framed(m.tag(), m.tail()),
        quote_free(m.tag()),
{
    reveal_strlit("auth");
    reveal_strlit("auth_ok");
    reveal_strlit("auth_rejected");
    reveal_strlit("echo");
    reveal_strlit("echo_reply");
    reveal_strlit("shutdown");
    reveal_strlit("bye");
    match m {
        MsgView::Auth { token, protocol_version } => {
            texts_are_framed(m.tag(), seq![], token, protocol_version);
        },
        MsgView::AuthOk => {
            texts_are_framed(m.tag(), seq![], seq![], 0);
        },
        MsgView::AuthRejected { reason } => {
            texts_are_framed(m.tag(), "reason"@, reason, 0);
        },
        MsgView::Echo { payload } => {
            texts_are_framed(m.tag(), "payload"@, payload, 0);
        },
        MsgView::EchoReply { payload } => {
            texts_are_framed(m.tag(), "payload"@, payload, 0);
        },
        MsgView::Shutdown { reason } => {
            texts_are_framed(m.tag(), "reason"@, reason, 0);
        },
        MsgView::Bye => {
            texts_are_framed(m.tag(), seq![], seq![], 0);
        },
    }
}

/// The text of a message tells the message: no two messages share one.
pub proof fn wire_text_tells_the_message(m1: MsgView, m2: MsgView)
    requires
        m1.wire() == m2.wire(),
    ensures
        m1 == m2,
{
    every_message_is_tagged(m1);
    every_message_is_tagged(m2);
    frame_splits(m1.tag(), m1.tail(), m2.tag(), m2.tail());
    reveal_strlit("auth");
    reveal_strlit("auth_ok");
    reveal_strlit("auth_rejected");
    reveal_strlit("echo");
    reveal_strlit("echo_reply");
    reveal_strlit("shutdown");
    reveal_strlit("bye");
    assert("auth"@[0] == 'a' && "echo"@[0] == 'e');
    match (m1, m2) {
        (
            MsgView::Auth { token: t1, protocol_version: p1 },
            MsgView::Auth { token: t2, protocol_version: p2 },
        ) => {
            auth_tail_is_injective(t1, p1, t2, p2);
        },
        (MsgView::AuthRejected { reason: v1 }, MsgView::AuthRejected { reason: v2 }) => {
            field_tail_is_injective("reason"@, v1, v2);
        },
        (MsgView::Echo { payload: v1 }, MsgView::Echo { payload: v2 }) => {
            field_tail_is_injective("payload"@, v1, v2);
        },
        (MsgView::EchoReply { payload: v1 }, MsgView::EchoReply { payload: v2 }) => {
            field_tail_is_injective("payload"@, v1, v2);
        },
        (MsgView::Shutdown { reason: v1 }, MsgView::Shutdown { reason: v2 }) => {
            field_tail_is_injective("reason"@, v1, v2);
        },
        _ => {},
    }
}

/// Where the conversation stands after these events.
pub open spec fn state_after(auth_token: Seq<char>, events: Seq<SessionEventView>) -> SessionState
    decreases events.len(),
{
    if events.len() == 0 {
        SessionState::AwaitAuth
    } else {
        session_step(
            auth_token,
            state_after(auth_token, events.drop_last()),
            events.last(),
        ).state
    }
}

/// Everything sent in the course of these events.
pub open spec fn sent_after(auth_token: Seq<char>, events: Seq<SessionEventView>) -> Seq<MsgView>
    decreases events.len(),
{
    if events.len() == 0 {
        seq![]
    } else {
        sent_after(auth_token, events.drop_last()) + session_step(
            auth_token,
            state_after(auth_token, events.drop_last()),
            events.last(),
        ).send
    }
}

/// A course of events in which each is one that the conversation waits for.
pub open spec fn possible(auth_token: Seq<char>, events: Seq<SessionEventView>) -> bool
    decreases events.len(),
{
    events.len() == 0 || (possible(auth_token, events.drop_last()) && expects(
        state_after(auth_token, events.drop_last()),
        events.last(),
    ))
}

/// The client presented the right token and version.
pub open spec fn authenticates(auth_token: Seq<char>, event: SessionEventView) -> bool {
    event == SessionEventView::Received(
        MsgView::Auth { token: auth_token, protocol_version: PROTOCOL_VERSION },
    )
}

/// The client sent the echo with this number back.
pub open spec fn echoes(event: SessionEventView, index: int) -> bool {
    event == SessionEventView::Received(MsgView::EchoReply { payload: echo_payload(index) })
}

/// The first `done` echoes came back after the client had authenticated.
pub open spec fn echoed(auth_token: Seq<char>, events: Seq<SessionEventView>, done: int) -> bool {
    &&& events.len() >= done + 1
    &&& authenticates(auth_token, events[0])
    &&& forall|i: int| 0 <= i < done ==> echoes(#[trigger] events[i + 1], i)
}

/// What is sent up to the request that follows `done` echoes.
pub open spec fn requests(done: int) -> Seq<MsgView>
    decreases done,
{
    if done <= 0 {
        seq![MsgView::AuthOk, next_request(0)]
    } else {
        requests(done - 1).push(next_request(done))
    }
}

/// What must have happened, and what was sent, where the conversation stands.
pub open spec fn history(auth_token: Seq<char>, events: Seq<SessionEventView>) -> bool {
    let n = events.len() as int;
    let sent = sent_after(auth_token, events);
    match state_after(auth_token, events) {
        SessionState::AwaitAuth => n == 0 && sent == Seq::<MsgView>::empty(),
        SessionState::AwaitEcho { index } => {
            &&& index < ECHO_ROUND_TRIPS
            &&& n == index + 1
            &&& echoed(auth_token, events, index as int)
            &&& sent == requests(index as int)
        },
        SessionState::AwaitBye => {
            &&& n == ECHO_ROUND_TRIPS + 1
            &&& echoed(auth_token, events, ECHO_ROUND_TRIPS as int)
            &&& sent == requests(ECHO_ROUND_TRIPS as int)
        },
        SessionState::AwaitExit => {
            &&& n == ECHO_ROUND_TRIPS + 2
            &&& echoed(auth_token, events, ECHO_ROUND_TRIPS as int)
            &&& sent == requests(ECHO_ROUND_TRIPS as int)
        },
        SessionState::Passed => {
            &&& n == ECHO_ROUND_TRIPS + 3
            &&& echoed(auth_token, events, ECHO_ROUND_TRIPS as int)
            &&& events.last() == SessionEventView::Exited { success: true }
            &&& sent == requests(ECHO_ROUND_TRIPS as int)
        },
        SessionState::Failed(error) => {
            ||| authenticates(auth_token, events[0])
            ||| sent == Seq::<MsgView>::empty()
            ||| (error is Rejected && sent == seq![
                MsgView::AuthRejected { reason: rejection_reason(error->Rejected_0) },
            ])
        },
    }
}

proof fn history_holds(auth_token: Seq<char>, events: Seq<SessionEventView>)
    requires
        possible(auth_token, events),
    ensures
        history(auth_token, events),
    decreases events.len(),
{
    if events.len() > 0 {
        let before = events.drop_last();
        let event = events.last();
        let state = state_after(auth_token, before);
        history_holds(auth_token, before);
        let step = session_step(auth_token, state, event);
        assert(forall|i: int| 0 <= i < before.len() ==> before[i] == events[i]);
        match state {
            SessionState::AwaitAuth => {
                assert(sent_after(auth_token, events) =~= step.send);
            },
            SessionState::AwaitEcho { index } => {
                if step.send.len() > 0 {
                    assert(sent_after(auth_token, events) =~= requests(index + 1));
                    assert(echoes(events[index + 1], index as int));
                } else {
                    assert(sent_after(auth_token, events) =~= sent_after(auth_token, before));
                }
            },
            _ => {
                assert(sent_after(auth_token, events) =~= sent_after(auth_token, before));
            },
        }
    }
}

/// The conversation passes exactly when the client authenticates, echoes every
/// payload in turn, does or does not say goodbye, and exits with success.
pub proof fn session_passes_iff(auth_token: Seq<char>, events: Seq<SessionEventView>)
    requires
        possible(auth_token, events),
    ensures
        state_after(auth_token, events) == SessionState::Passed <==> {
            &&& events.len() == ECHO_ROUND_TRIPS + 3
            &&& echoed(auth_token, events, ECHO_ROUND_TRIPS as int)
            &&& events.last() == SessionEventView::Exited { success: true }
        },
{
    history_holds(auth_token, events);
    if events.len() == ECHO_ROUND_TRIPS + 3 && echoed(auth_token, events, ECHO_ROUND_TRIPS as int)
        && events.last() == (SessionEventView::Exited { success: true }) {
        let e5 = events.drop_last();
        let e4 = e5.drop_last();
        let e3 = e4.drop_last();
        let e2 = e3.drop_last();
        let e1 = e2.drop_last();
        let e0 = e1.drop_last();
        assert(echoes(events[0int + 1], 0));
        assert(echoes(events[1int + 1], 1));
        assert(echoes(events[2int + 1], 2));
        assert(state_after(auth_token, e0) == SessionState::AwaitAuth);
        assert(e1.last() == events[0]);
        assert(state_after(auth_token, e1) == SessionState::AwaitEcho { index: 0 });
        assert(e2.last() == events[1]);
        assert(state_after(auth_token, e2) == SessionState::AwaitEcho { index: 1 });
        assert(e3.last() == events[2]);
        assert(state_after(auth_token, e3) == SessionState::AwaitEcho { index: 2 });
        assert(e4.last() == events[3]);
        assert(state_after(auth_token, e4) == SessionState::AwaitBye);
        assert(state_after(auth_token, e5) == SessionState::AwaitExit);
    }
}

/// A conversation that passed sent the welcome, every echo in turn and the
/// request to shut down, and nothing else.
pub proof fn passed_session_sent(auth_token: Seq<char>, events: Seq<SessionEventView>)
    requires
        possible(auth_token, events),
        state_after(auth_token, events) == SessionState::Passed,
    ensures
        sent_after(auth_token, events) == seq![
            MsgView::AuthOk,
            MsgView::Echo { payload: echo_payload(0) },
            MsgView::Echo { payload: echo_payload(1) },
            MsgView::Echo { payload: echo_payload(2) },
            MsgView::Shutdown { reason: "spike test complete"@ },
        ],
{
    history_holds(auth_token, events);
    reveal_with_fuel(requests, 5);
    assert(requests(3) =~= seq![
        MsgView::AuthOk,
        MsgView::Echo { payload: echo_payload(0) },
        MsgView::Echo { payload: echo_payload(1) },
        MsgView::Echo { payload: echo_payload(2) },
        MsgView::Shutdown { reason: "spike test complete"@ },
    ]);
}

/// A client that has not authenticated is told nothing but, at most, the reason
/// for which it was turned away.
pub proof fn strangers_learn_nothing(auth_token: Seq<char>, events: Seq<SessionEventView>)
    requires
        possible(auth_token, events),
        events.len() == 0 || !authenticates(auth_token, events[0]),
    ensures
        sent_after(auth_token, events) == Seq::<MsgView>::empty() || exists|rejection: Rejection|
            sent_after(auth_token, events) == seq![
                MsgView::AuthRejected { reason: #[trigger] rejection_reason(rejection) },
            ],
{
    history_holds(auth_token, events);
}

/// A client with the wrong token or version fails the conversation and is sent
/// that reason.
pub proof fn refused_client_is_told_why(auth_token: Seq<char>, token: Seq<char>, version: u32)
    requires
        token != auth_token || version != PROTOCOL_VERSION,
    ensures
        ({
            let step = session_step(
                auth_token,
                SessionState::AwaitAuth,
                SessionEventView::Received(MsgView::Auth { token, protocol_version: version }),
            );
            let rejection = if token != auth_token {
                Rejection::BadToken
            } else {
                Rejection::VersionMismatch { client: version }
            };
            &&& step.send == seq![MsgView::AuthRejected { reason: rejection_reason(rejection) }]
            &&& step.state == SessionState::Failed(SessionError::Rejected(rejection))
        }),
{
}

/// The child is killed exactly when it does not exit in time.
pub proof fn only_a_stuck_child_is_killed(
    auth_token: Seq<char>,
    state: SessionState,
    event: SessionEventView,
)
    requires
        expects(state, event),
    ensures
        session_step(auth_token, state, event).kill_child <==> state == SessionState::AwaitExit
            && event == SessionEventView::ExitTimedOut,
{
}

/// What is read back from a message's text, as JSON, is that message: an object
/// with its tag under `type` and each of its fields under its name, whatever they
/// hold.
pub proof fn a_message_reads_back(m: Msg, res: String)
    requires
        call_ensures(Msg::to_wire, (&m,), res),
    ensures
        match m {
            Msg::Auth { token, protocol_version } => read_object(res@) == Some(
                seq![
                    ("type"@, JsonValue::Text("auth"@)),
                    ("token"@, JsonValue::Text(token@)),
                    ("protocol_version"@, JsonValue::Number(protocol_version as int)),
                ],
            ),
            Msg::AuthOk => read_object(res@) == Some(
                seq![("type"@, JsonValue::Text("auth_ok"@))],
            ),
            Msg::AuthRejected { reason } => read_object(res@) == Some(
                seq![
                    ("type"@, JsonValue::Text("auth_rejected"@)),
                    ("reason"@, JsonValue::Text(reason@)),
                ],
            ),
            Msg::Echo { payload } => read_object(res@) == Some(
                seq![
                    ("type"@, JsonValue::Text("echo"@)),
                    ("payload"@, JsonValue::Text(payload@)),
                ],
            ),
            Msg::EchoReply { payload } => read_object(res@) == Some(
                seq![
                    ("type"@, JsonValue::Text("echo_reply"@)),
                    ("payload"@, JsonValue::Text(payload@)),
                ],
            ),
            Msg::Shutdown { reason } => read_object(res@) == Some(
                seq![
                    ("type"@, JsonValue::Text("shutdown"@)),
                    ("reason"@, JsonValue::Text(reason@)),
                ],
            ),
            Msg::Bye => read_object(res@) == Some(seq![("type"@, JsonValue::Text("bye"@))]),
        },
{
    reveal_strlit("auth_ok");
    reveal_strlit("auth_rejected");
    reveal_strlit("echo");
    reveal_strlit("echo_reply");
    reveal_strlit("shutdown");
    reveal_strlit("bye");
    reveal_strlit("reason");
    reveal_strlit("payload");
    assert(is_plain("auth_ok"@) && is_plain("auth_rejected"@) && is_plain("echo"@));
    assert(is_plain("echo_reply"@) && is_plain("shutdown"@) && is_plain("bye"@));
    assert(is_plain("reason"@) && is_plain("payload"@));
    match m {
        Msg::Auth { token, protocol_version } => {
            auth_text_reads_back(token@, protocol_version);
        },
        Msg::AuthOk => {
            unit_text_reads_back("auth_ok"@);
        },
        Msg::AuthRejected { reason } => {
            field_text_reads_back("auth_rejected"@, "reason"@, reason@);
        },
        Msg::Echo { payload } => {
            field_text_reads_back("echo"@, "payload"@, payload@);
        },
        Msg::EchoReply { payload } => {
            field_text_reads_back("echo_reply"@, "payload"@, payload@);
        },
        Msg::Shutdown { reason } => {
            field_text_reads_back("shutdown"@, "reason"@, reason@);
        },
        Msg::Bye => {
            unit_text_reads_back("bye"@);
        },
    }
}

/// The client is told the port to connect to, as a number that reads back as it,
/// and its token in full.
pub proof fn the_client_is_told_where_and_how(port: u16, auth_token: String, res: Vec<String>)
    requires
        call_ensures(java_args, (port, &auth_token), res),
    ensures
        res@.len() == 3,
        tells_number(res@[0]@, "-Dliminal.connect.address=ws://127.0.0.1:"@, port as int),
        res@[1]@ == "-Dliminal.auth.token="@ + auth_token@,
        res@[2]@ == "TestClient"@,
{
    texts_are_the_strings(res@);
    a_numeral_tells_its_number("-Dliminal.connect.address=ws://127.0.0.1:"@, port as int);
    assert(texts(res@).len() == 3);
    assert(texts(res@)[0] == res@[0]@);
    assert(texts(res@)[1] == res@[1]@);
    assert(texts(res@)[2] == res@[2]@);
}

/// The payloads of the echoes, written out.
pub proof fn echo_payloads_are_numbered(index: usize, res: String)
    requires
        call_ensures(write_echo_payload, (index,), res),
    ensures
        tells_number(res@, "ping-"@, index as int),
        echo_payload(0) == "ping-0"@,
        echo_payload(1) == "ping-1"@,
        echo_payload(2) == "ping-2"@,
{
    a_numeral_tells_its_number("ping-"@, index as int);
    payloads_written_out();
}

proof fn payloads_written_out()
    ensures
        echo_payload(0) == "ping-0"@,
        echo_payload(1) == "ping-1"@,
        echo_payload(2) == "ping-2"@,
{
    reveal_strlit("ping-");
    reveal_strlit("ping-0");
    reveal_strlit("ping-1");
    reveal_strlit("ping-2");
    assert(digit_char(0) == '0' && digit_char(1) == '1' && digit_char(2) == '2');
    assert(echo_payload(0) =~= "ping-0"@);
    assert(echo_payload(1) =~= "ping-1"@);
    assert(echo_payload(2) =~= "ping-2"@);
}

/// A client turned away for its version is told both: the launcher's, and a number
/// that reads back as its own.
pub proof fn a_rejection_tells_the_version(rejection: Rejection, res: String)
    requires
        call_ensures(write_rejection_reason, (rejection,), res),
    ensures
        rejection == Rejection::BadToken ==> res@ == "bad token"@,
        rejection matches Rejection::VersionMismatch { client } ==> tells_number(
            res@,
            "protocol_version mismatch: launcher=1, client="@,
            client as int,
        ),
{
    if let Rejection::VersionMismatch { client } = rejection {
        mismatch_text(client);
        a_numeral_tells_its_number(
            "protocol_version mismatch: launcher=1, client="@,
            client as int,
        );
    }
}

proof fn mismatch_text(client: u32)
    ensures
        rejection_reason(Rejection::VersionMismatch { client })
            == "protocol_version mismatch: launcher=1, client="@ + decimal(client as nat),
{
    reveal_strlit("protocol_version mismatch: launcher=");
    reveal_strlit(", client=");
    reveal_strlit("");
    reveal_strlit("protocol_version mismatch: launcher=1, client=");
    assert(decimal(1) =~= seq!['1']);
    assert("protocol_version mismatch: launcher=1, client="@
        =~= "protocol_version mismatch: launcher="@ + decimal(1) + ", client="@);
    assert(rejection_reason(Rejection::VersionMismatch { client })
        =~= "protocol_version mismatch: launcher=1, client="@ + decimal(client as nat));
}

/// How the launcher answers each event, in the words of the conversation: a client
/// that authenticates is welcomed and sent the first echo; each echo that comes
/// back is followed by the next, and the last by the request to shut down; then,
/// said goodbye or not, only the exit counts.
pub proof fn a_step_answers_the_event(
    auth_token: String,
    state: SessionState,
    event: SessionEvent,
    res: SessionStep,
)
    requires
        call_ensures(step_session, (&auth_token, state, &event), res),
        expects(state, event@),
    ensures
        state == SessionState::AwaitAuth ==> match event {
            SessionEvent::Received(Msg::Auth { token, protocol_version }) => {
                if token@ != auth_token@ {
                    &&& res.send@.len() == 1
                    &&& res.send@[0] matches Msg::AuthRejected { reason } && reason@ == "bad token"@
                    &&& !res.must_arrive
                    &&& res.state == SessionState::Failed(
                        SessionError::Rejected(Rejection::BadToken),
                    )
                } else if protocol_version != 1 {
                    &&& res.send@.len() == 1
                    &&& res.send@[0] matches Msg::AuthRejected { reason } && tells_number(
                        reason@,
                        "protocol_version mismatch: launcher=1, client="@,
                        protocol_version as int,
                    )
                    &&& !res.must_arrive
                    &&& res.state == SessionState::Failed(
                        SessionError::Rejected(
                            Rejection::VersionMismatch { client: protocol_version },
                        ),
                    )
                } else {
                    &&& res.send@.len() == 2
                    &&& res.send@[0] is AuthOk
                    &&& res.send@[1] matches Msg::Echo { payload } && payload@ == "ping-0"@
                    &&& res.must_arrive
                    &&& res.state == (SessionState::AwaitEcho { index: 0 })
                }
            },
            SessionEvent::Received(_) => res.send@.len() == 0 && res.state == SessionState::Failed(
                SessionError::NotAuth,
            ),
            _ => res.send@.len() == 0 && res.state == SessionState::Failed(SessionError::NoAuth),
        },
        state matches SessionState::AwaitEcho { index } ==> match event {
            SessionEvent::Received(Msg::EchoReply { payload }) => {
                if payload@ != seq!["ping-0"@, "ping-1"@, "ping-2"@][index as int] {
                    &&& res.send@.len() == 0
                    &&& res.state == SessionState::Failed(SessionError::EchoMismatch)
                } else if index < 2 {
                    &&& res.send@.len() == 1
                    &&& res.send@[0] matches Msg::Echo { payload: next } && next@ == seq![
                        "ping-0"@,
                        "ping-1"@,
                        "ping-2"@,
                    ][index + 1]
                    &&& res.must_arrive
                    &&& res.state == (SessionState::AwaitEcho { index: (index + 1) as usize })
                } else {
                    &&& res.send@.len() == 1
                    &&& res.send@[0] matches Msg::Shutdown { reason } && reason@
                        == "spike test complete"@
                    &&& res.must_arrive
                    &&& res.state == SessionState::AwaitBye
                }
            },
            SessionEvent::Received(_) => res.send@.len() == 0 && res.state == SessionState::Failed(
                SessionError::NotEchoReply,
            ),
            _ => res.send@.len() == 0 && res.state == SessionState::Failed(SessionError::NoReply),
        },
        state == SessionState::AwaitBye ==> res.send@.len() == 0 && res.state
            == SessionState::AwaitExit,
        state == SessionState::AwaitExit ==> res.send@.len() == 0 && res.state == match event {
            SessionEvent::Exited { success } => if success {
                SessionState::Passed
            } else {
                SessionState::Failed(SessionError::BadExit)
            },
            SessionEvent::ExitTimedOut => SessionState::Failed(SessionError::Stuck),
            _ => SessionState::Failed(SessionError::WaitFailed),
        },
        res.kill_child <==> state == SessionState::AwaitExit && event is ExitTimedOut,
{
    payloads_written_out();
    let sent = msgs(res.send@);
    assert(sent.len() == res.send@.len());
    assert(forall|i: int| 0 <= i < sent.len() ==> sent[i] == (#[trigger] res.send@[i])@);
    if let SessionEvent::Received(Msg::Auth { token, protocol_version }) = event {
        mismatch_text(protocol_version);
        a_numeral_tells_its_number(
            "protocol_version mismatch: launcher=1, client="@,
            protocol_version as int,
        );
    }
    assert(res@.send == sent);
    if sent.len() > 0 {
        assert(sent[0] == res.send@[0]@);
    }
    if sent.len() > 1 {
        assert(sent[1] == res.send@[1]@);
    }
}

/// A step takes the history of a conversation on by its event: the state and what
/// was sent follow from the events alone.
pub proof fn steps_make_history(
    auth_token: String,
    events: Seq<SessionEventView>,
    event: SessionEvent,
    res: SessionStep,
)
    requires
        call_ensures(step_session, (&auth_token, state_after(auth_token@, events), &event), res),
        expects(state_after(auth_token@, events), event@),
    ensures
        state_after(auth_token@, events.push(event@)) == res.state,
        sent_after(auth_token@, events.push(event@)) == sent_after(auth_token@, events) + msgs(
            res.send@,
        ),
{
    assert(events.push(event@).drop_last() =~= events);
    assert(res@.state == res.state);
    assert(res@.send == msgs(res.send@));
}

/// A conversation passes exactly by these events: the launched client's token and
/// version one, the three echoes in their order, anything where a goodbye is due,
/// and an exit with success.
pub proof fn a_session_passes_by_these_events(
    auth_token: Seq<char>,
    events: Seq<SessionEventView>,
)
    requires
        possible(auth_token, events),
    ensures
        state_after(auth_token, events) == SessionState::Passed <==> {
            &&& events.len() == 6
            &&& events[0] == SessionEventView::Received(
                MsgView::Auth { token: auth_token, protocol_version: 1 },
            )
            &&& events[1] == SessionEventView::Received(MsgView::EchoReply { payload: "ping-0"@ })
            &&& events[2] == SessionEventView::Received(MsgView::EchoReply { payload: "ping-1"@ })
            &&& events[3] == SessionEventView::Received(MsgView::EchoReply { payload: "ping-2"@ })
            &&& events[5] == SessionEventView::Exited { success: true }
        },
        state_after(auth_token, events) == SessionState::Passed ==> sent_after(auth_token, events)
            == seq![
            MsgView::AuthOk,
            MsgView::Echo { payload: "ping-0"@ },
            MsgView::Echo { payload: "ping-1"@ },
            MsgView::Echo { payload: "ping-2"@ },
            MsgView::Shutdown { reason: "spike test complete"@ },
        ],
{
    payloads_written_out();
    session_passes_iff(auth_token, events);
    if state_after(auth_token, events) == SessionState::Passed {
        passed_session_sent(auth_token, events);
        assert(echoes(events[0int + 1], 0));
        assert(echoes(events[1int + 1], 1));
        assert(echoes(events[2int + 1], 2));
    }
    if events.len() == 6 && authenticates(auth_token, events[0]) && echoes(events[1], 0) && echoes(
        events[2],
        1,
    ) && echoes(events[3], 2) {
        assert forall|i: int| 0 <= i < 3 implies echoes(#[trigger] events[i + 1], i) by {
            if i == 0 {
                assert(echoes(events[1], 0));
            } else if i == 1 {
                assert(echoes(events[2], 1));
            } else {
                assert(echoes(events[3], 2));
            }
        }
    }
}

/// An error shows what came in full, at its end, and an echo that came back wrong
/// also what was sent; beyond that, nothing in an error depends on either.
pub proof fn an_error_shows_what_came(
    error: SessionError,
    sent: &str,
    got: &str,
    nothing: &str,
    res: String,
    bare: String,
)
    requires
        call_ensures(SessionError::message, (&error, sent, got), res),
        call_ensures(SessionError::message, (&error, nothing, nothing), bare),
        nothing@.len() == 0,
    ensures
        error == SessionError::NotAuth || error == SessionError::NoReply || error
            == SessionError::NotEchoReply || error == SessionError::BadExit || error
            == SessionError::WaitFailed ==> res@ == bare@ + got@,
        error == SessionError::EchoMismatch ==> bare@ == "echo mismatch: sent , got "@ && res@
            == bare@.take(20) + sent@ + bare@.skip(20) + got@,
        error == SessionError::NoAuth || error == SessionError::Stuck || error is Rejected
            ==> res@ == bare@,
{
    match error {
        SessionError::NotAuth => {
            assert("expected Auth message, got "@ + nothing@ =~= "expected Auth message, got "@);
        },
        SessionError::NoReply => {
            assert(nothing@ + got@ =~= got@);
        },
        SessionError::NotEchoReply => {
            assert("expected EchoReply, got "@ + nothing@ =~= "expected EchoReply, got "@);
        },
        SessionError::BadExit => {
            assert("child exited with non-zero status: "@ + nothing@
                =~= "child exited with non-zero status: "@);
        },
        SessionError::WaitFailed => {
            assert("error waiting for child: "@ + nothing@ =~= "error waiting for child: "@);
        },
        SessionError::EchoMismatch => {
            reveal_strlit("echo mismatch: sent ");
            reveal_strlit(", got ");
            reveal_strlit("echo mismatch: sent , got ");
            assert(bare@ =~= "echo mismatch: sent , got "@);
            assert(bare@.take(20) =~= "echo mismatch: sent "@);
            assert(bare@.skip(20) =~= ", got "@);
        },
        _ => {},
    }
}

/// Any message, and none, can be answered while one is waited for, and any way to
/// exit while that is.
pub proof fn any_awaited_event_can_be_answered(
    auth_token: String,
    state: SessionState,
    event: SessionEvent,
)
    requires
        match state {
            SessionState::AwaitAuth => event is Received || event is ReceiveFailed,
            SessionState::AwaitEcho { index } => index < 3 && (event is Received
                || event is ReceiveFailed),
            SessionState::AwaitBye => event is Received || event is ReceiveFailed,
            SessionState::AwaitExit => event is Exited || event is WaitFailed
                || event is ExitTimedOut,
            _ => false,
        },
    ensures
        call_requires(step_session, (&auth_token, state, &event)),
{
}

/// An error over a version tells both: the launcher's, and a number that reads
/// back as the client's. The other errors that show nothing have fixed texts.
pub proof fn errors_have_their_texts(error: SessionError, sent: &str, got: &str, res: String)
    requires
        call_ensures(SessionError::message, (&error, sent, got), res),
    ensures
        error matches SessionError::Rejected(Rejection::VersionMismatch { client })
            ==> tells_number(
            res@,
            "protocol_version mismatch: launcher=1, client="@,
            client as int,
        ),
        error == SessionError::Rejected(Rejection::BadToken) ==> res@
            == "child sent wrong auth token (impersonation attempt?)"@,
        error == SessionError::NoAuth ==> res@ == "expected auth message"@,
        error == SessionError::NotAuth ==> res@ == "expected Auth message, got "@ + got@,
        error == SessionError::NoReply ==> res@ == got@,
        error == SessionError::EchoMismatch ==> res@ == "echo mismatch: sent "@ + sent@ + ", got "@
            + got@,
        error == SessionError::NotEchoReply ==> res@ == "expected EchoReply, got "@ + got@,
        error == SessionError::BadExit ==> res@ == "child exited with non-zero status: "@ + got@,
        error == SessionError::WaitFailed ==> res@ == "error waiting for child: "@ + got@,
        error == SessionError::Stuck ==> res@
            == "child failed to shut down within timeout (would orphan in production)"@,
{
    if let SessionError::Rejected(Rejection::VersionMismatch { client }) = error {
        mismatch_text(client);
        a_numeral_tells_its_number(
            "protocol_version mismatch: launcher=1, client="@,
            client as int,
        );
    }
}

/// The client has fifteen seconds to connect, five for each message and ten to
/// exit.
pub proof fn the_client_has_its_time()
    ensures
        CONNECT_TIMEOUT_SECS == 15,
        MESSAGE_TIMEOUT_SECS == 5,
        SHUTDOWN_TIMEOUT_SECS == 10,
{
}

} // verus!
