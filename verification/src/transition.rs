//! The swap of two test instances: instance A is covered by the overlay and shut
//! down, instance B is launched hidden in its place and revealed. Here stands what
//! the launcher and an instance say to each other.

use crate::geometry::{Placement, Rect};
use crate::handshake::{
    check_client, mismatch_reason, verdict, write_mismatch_reason, Rejection, PROTOCOL_VERSION,
};
use crate::text::{
    a_numeral_tells_its_number, decimal, push_decimal, push_signed, signed_decimal, tells_number,
    texts, texts_are_the_strings,
};
use crate::wire::{
    auth_tail, auth_tail_is_injective, auth_text, auth_text_reads_back, field_tail,
    field_tail_is_injective, field_text, field_text_reads_back, frame_splits, framed, is_plain,
    quote_free, read_object, texts_are_framed, unit_tail, unit_text, unit_text_reads_back,
    write_auth, write_field, write_unit, JsonValue,
};
use vstd::prelude::*;
use vstd::string::*;

verus! {

/// Time allowed for an instance to connect.
pub const CONNECT_TIMEOUT_SECS: u64 = 30;

/// Time allowed for an instance to report that it is ready.
pub const READY_TIMEOUT_SECS: u64 = 30;

/// Time allowed for each message.
pub const MESSAGE_TIMEOUT_SECS: u64 = 10;

/// Time allowed for an instance to exit once told to shut down.
pub const SHUTDOWN_TIMEOUT_SECS: u64 = 10;

/// Time allowed for the last message of an instance told to shut down.
pub const DRAIN_TIMEOUT_SECS: u64 = 2;

/// Pause in which a revealed window paints itself.
pub const SETTLE_MS: u64 = 150;

/// How long B stays on screen.
pub const POST_TRANSITION_HOLD_SECS: u64 = 5;

/// What the title of an instance's window starts with.
pub const INSTANCE_TITLE_PREFIX: &'static str = "Liminal Test Instance ";

/// Where instance A appears.
pub open spec fn spec_initial_instance_rect() -> Rect {
    Rect { left: 240, top: 120, right: 1200, bottom: 760 }
}

/// Where instance A appears.
pub fn initial_instance_rect() -> (res: Rect)
    ensures
        res == spec_initial_instance_rect(),
        res.spec_measurable(),
{
    Rect { left: 240, top: 120, right: 1200, bottom: 760 }
}

/// A message between launcher and instance.
#[derive(Debug)]
pub enum Msg {
    Auth { token: String, protocol_version: u32 },
    Ready { instance_name: String },
    Bye,
    AuthOk,
    AuthRejected { reason: String },
    ShowWindow,
    Shutdown { reason: String },
}

/// What a message says.
pub enum MsgView {
    Auth { token: Seq<char>, protocol_version: u32 },
    Ready { instance_name: Seq<char> },
    Bye,
    AuthOk,
    AuthRejected { reason: Seq<char> },
    ShowWindow,
    Shutdown { reason: Seq<char> },
}

impl View for Msg {
    type V = MsgView;

    open spec fn view(&self) -> MsgView {
        match self {
            Msg::Auth { token, protocol_version } => MsgView::Auth {
                token: token@,
                protocol_version: *protocol_version,
            },
            Msg::Ready { instance_name } => MsgView::Ready { instance_name: instance_name@ },
            Msg::Bye => MsgView::Bye,
            Msg::AuthOk => MsgView::AuthOk,
            Msg::AuthRejected { reason } => MsgView::AuthRejected { reason: reason@ },
            Msg::ShowWindow => MsgView::ShowWindow,
            Msg::Shutdown { reason } => MsgView::Shutdown { reason: reason@ },
        }
    }
}

impl MsgView {
    /// The message as JSON text.
    pub open spec fn wire(self) -> Seq<char> {
        match self {
            MsgView::Auth { token, protocol_version } => auth_text(token, protocol_version),
            MsgView::Ready { instance_name } => field_text(
                "ready"@,
                "instance_name"@,
                instance_name,
            ),
            MsgView::Bye => unit_text("bye"@),
            MsgView::AuthOk => unit_text("auth_ok"@),
            MsgView::AuthRejected { reason } => field_text("auth_rejected"@, "reason"@, reason),
            MsgView::ShowWindow => unit_text("show_window"@),
            MsgView::Shutdown { reason } => field_text("shutdown"@, "reason"@, reason),
        }
    }

    /// The tag of the message.
    pub open spec fn tag(self) -> Seq<char> {
        match self {
            MsgView::Auth { .. } => "auth"@,
            MsgView::Ready { .. } => "ready"@,
            MsgView::Bye => "bye"@,
            MsgView::AuthOk => "auth_ok"@,
            MsgView::AuthRejected { .. } => "auth_rejected"@,
            MsgView::ShowWindow => "show_window"@,
            MsgView::Shutdown { .. } => "shutdown"@,
        }
    }

    /// What follows the tag in the message's text.
    pub open spec fn tail(self) -> Seq<char> {
        match self {
            MsgView::Auth { token, protocol_version } => auth_tail(token, protocol_version),
            MsgView::Ready { instance_name } => field_tail("instance_name"@, instance_name),
            MsgView::Bye => unit_tail(),
            MsgView::AuthOk => unit_tail(),
            MsgView::AuthRejected { reason } => field_tail("reason"@, reason),
            MsgView::ShowWindow => unit_tail(),
            MsgView::Shutdown { reason } => field_tail("reason"@, reason),
        }
    }
}

impl Msg {
    /// Writes the message as JSON text.
    pub fn to_wire(&self) -> (res: String)
        ensures
            res@ == self@.wire(),
    {
        match self {
            Msg::Auth { token, protocol_version } => write_auth(token, *protocol_version),
            Msg::Ready { instance_name } => write_field("ready", "instance_name", instance_name),
            Msg::Bye => write_unit("bye"),
            Msg::AuthOk => write_unit("auth_ok"),
            Msg::AuthRejected { reason } => write_field("auth_rejected", "reason", reason),
            Msg::ShowWindow => write_unit("show_window"),
            Msg::Shutdown { reason } => write_field("shutdown", "reason", reason),
        }
    }
}

/// Every message's text carries its tag under `type`, first.
pub proof fn every_message_is_tagged(m: MsgView)
    ensures
        m.wire() == framed(m.tag(), m.tail()),
        quote_free(m.tag()),
{
    reveal_strlit("auth");
    reveal_strlit("ready");
    reveal_strlit("bye");
    reveal_strlit("auth_ok");
    reveal_strlit("auth_rejected");
    reveal_strlit("show_window");
    reveal_strlit("shutdown");
    match m {
        MsgView::Auth { token, protocol_version } => {
            texts_are_framed(m.tag(), seq![], token, protocol_version);
        },
        MsgView::Ready { instance_name } => {
            texts_are_framed(m.tag(), "instance_name"@, instance_name, 0);
        },
        MsgView::AuthRejected { reason } => {
            texts_are_framed(m.tag(), "reason"@, reason, 0);
        },
        MsgView::Shutdown { reason } => {
            texts_are_framed(m.tag(), "reason"@, reason, 0);
        },
        MsgView::Bye | MsgView::AuthOk | MsgView::ShowWindow => {
            texts_are_framed(m.tag(), seq![], seq![], 0);
        },
    }
}

/// The text of a message tells the message: no two messages share one.
pub proof fn wire_text_tells_the_message(m1: MsgView, m2: MsgView)
    requires
        m1.wire() == m2.wire(),
    ensures
        m1 == m2,
{
    every_message_is_tagged(m1);
    every_message_is_tagged(m2);
    frame_splits(m1.tag(), m1.tail(), m2.tag(), m2.tail());
    reveal_strlit("auth");
    reveal_strlit("ready");
    reveal_strlit("bye");
    reveal_strlit("auth_ok");
    reveal_strlit("auth_rejected");
    reveal_strlit("show_window");
    reveal_strlit("shutdown");
    match (m1, m2) {
        (
            MsgView::Auth { token: t1, protocol_version: p1 },
            MsgView::Auth { token: t2, protocol_version: p2 },
        ) => {
            auth_tail_is_injective(t1, p1, t2, p2);
        },
        (MsgView::Ready { instance_name: v1 }, MsgView::Ready { instance_name: v2 }) => {
            field_tail_is_injective("instance_name"@, v1, v2);
        },
        (MsgView::AuthRejected { reason: v1 }, MsgView::AuthRejected { reason: v2 }) => {
            field_tail_is_injective("reason"@, v1, v2);
        },
        (MsgView::Shutdown { reason: v1 }, MsgView::Shutdown { reason: v2 }) => {
            field_tail_is_injective("reason"@, v1, v2);
        },
        _ => {},
    }
}

/// What an instance is told that was turned away.
pub open spec fn rejection_reason(rejection: Rejection) -> Seq<char> {
    match rejection {
        Rejection::BadToken => "bad token"@,
        Rejection::VersionMismatch { client } => mismatch_reason(
            "protocol_version mismatch (launcher="@,
            ", client="@,
            ")"@,
            client,
        ),
    }
}

/// What an instance is told that was turned away.
pub fn write_rejection_reason(rejection: Rejection) -> (res: String)
    ensures
        res@ == rejection_reason(rejection),
{
    match rejection {
        Rejection::BadToken => String::from_str("bad token"),
        Rejection::VersionMismatch { client } => write_mismatch_reason(
            "protocol_version mismatch (launcher=",
            ", client=",
            ")",
            client,
        ),
    }
}

/// Why a connection was not accepted.
#[derive(Debug, Clone, Copy, PartialEq, Eq, Structural)]
pub enum AcceptError {
    Rejected(Rejection),
    /// The first message was another one than the one to authenticate.
    NotAuth,
}

/// How the first message of a connection is answered.
#[derive(Debug)]
pub struct Admission {
    /// The reply, where there is one.
    pub reply: Option<Msg>,
    pub outcome: Result<(), AcceptError>,
}

/// What the reply to the first message says. A message that does not
/// authenticate gets none.
pub open spec fn admission_reply(auth_token: Seq<char>, first: MsgView) -> Option<MsgView> {
    match first {
        MsgView::Auth { token, protocol_version } => match verdict(
            auth_token,
            token,
            protocol_version,
        ) {
            Ok(_) => Some(MsgView::AuthOk),
            Err(rejection) => Some(MsgView::AuthRejected { reason: rejection_reason(rejection) }),
        },
        _ => None,
    }
}

/// Whether the connection is accepted.
pub open spec fn admission_outcome(auth_token: Seq<char>, first: MsgView) -> Result<
    (),
    AcceptError,
> {
    match first {
        MsgView::Auth { token, protocol_version } => match verdict(
            auth_token,
            token,
            protocol_version,
        ) {
            Ok(_) => Ok(()),
            Err(rejection) => Err(AcceptError::Rejected(rejection)),
        },
        _ => Err(AcceptError::NotAuth),
    }
}

/// Answers the first message of a connection.
pub fn answer_first_message(auth_token: &String, first: &Msg) -> (res: Admission)
    ensures
        res.reply is Some <==> admission_reply(auth_token@, first@) is Some,
        res.reply matches Some(reply) ==> Some(reply@) == admission_reply(auth_token@, first@),
        res.outcome == admission_outcome(auth_token@, first@),
{
    match first {
        Msg::Auth { token, protocol_version } => match check_client(
            auth_token,
            token,
            *protocol_version,
        ) {
            Ok(_) => Admission { reply: Some(Msg::AuthOk), outcome: Ok(()) },
            Err(rejection) => Admission {
                reply: Some(Msg::AuthRejected { reason: write_rejection_reason(rejection) }),
                outcome: Err(AcceptError::Rejected(rejection)),
            },
        },
        _ => Admission { reply: None, outcome: Err(AcceptError::NotAuth) },
    }
}

/// A connection is accepted exactly for the launched instance's token and the
/// launcher's version, and it is then told so; one that is turned away for either
/// is told which.
pub proof fn only_the_launched_instance_is_accepted(auth_token: Seq<char>, first: MsgView)
    ensures
        admission_outcome(auth_token, first) is Ok <==> first == (MsgView::Auth {
            token: auth_token,
            protocol_version: PROTOCOL_VERSION,
        }),
        admission_outcome(auth_token, first) is Ok <==> admission_reply(auth_token, first) == Some(
            MsgView::AuthOk,
        ),
        admission_outcome(auth_token, first) matches Err(AcceptError::Rejected(rejection))
            ==> admission_reply(auth_token, first) == Some(
            MsgView::AuthRejected { reason: rejection_reason(rejection) },
        ),
{
}

impl AcceptError {
    /// How the error reads, where `got` is how the first message reads.
    pub open spec fn spec_message(self, got: Seq<char>) -> Seq<char> {
        match self {
            AcceptError::Rejected(Rejection::BadToken) => "client sent wrong auth token"@,
            AcceptError::Rejected(rejection) => rejection_reason(rejection),
            AcceptError::NotAuth => "expected Auth, got "@ + got,
        }
    }

    /// How the error reads, where `got` is how the first message reads.
    pub fn message(&self, got: &str) -> (res: String)
        ensures
            res@ == self.spec_message(got@),
    {
        match self {
            AcceptError::Rejected(rejection) => match rejection {
                Rejection::BadToken => String::from_str("client sent wrong auth token"),
                Rejection::VersionMismatch { .. } => write_rejection_reason(*rejection),
            },
            AcceptError::NotAuth => String::from_str("expected Auth, got ").concat(got),
        }
    }
}

/// One of the two instances.
#[derive(Debug, Clone, Copy, PartialEq, Eq, Structural)]
pub enum Who {
    A,
    B,
}

impl Who {
    pub open spec fn spec_name(self) -> Seq<char> {
        match self {
            Who::A => "A"@,
            Who::B => "B"@,
        }
    }

    pub open spec fn spec_color(self) -> Seq<char> {
        match self {
            Who::A => "blue"@,
            Who::B => "red"@,
        }
    }

    /// The instance's name.
    pub fn name(&self) -> (res: &'static str)
        ensures
            res@ == self.spec_name(),
    {
        match self {
            Who::A => "A",
            Who::B => "B",
        }
    }

    /// The instance's colour.
    pub fn color(&self) -> (res: &'static str)
        ensures
            res@ == self.spec_color(),
    {
        match self {
            Who::A => "blue",
            Who::B => "red",
        }
    }

    /// The title of the instance's window.
    pub fn window_title(&self) -> (res: String)
        ensures
            res@ == INSTANCE_TITLE_PREFIX@ + self.spec_name(),
    {
        String::from_str(INSTANCE_TITLE_PREFIX).concat(self.name())
    }

    /// The request by which the instance is told to shut down.
    pub fn shutdown_request(&self) -> (res: Msg)
        ensures
            res@ == (MsgView::Shutdown {
                reason: match *self {
                    Who::A => "transition to B"@,
                    Who::B => "spike complete"@,
                },
            }),
    {
        match self {
            Who::A => Msg::Shutdown { reason: String::from_str("transition to B") },
            Who::B => Msg::Shutdown { reason: String::from_str("spike complete") },
        }
    }
}

/// Arguments that every launched instance gets.
pub open spec fn common_args(port: u16, auth_token: Seq<char>, who: Who, rect: Rect) -> Seq<
    Seq<char>,
> {
    seq![
        "-Dliminal.connect.address=ws://127.0.0.1:"@ + decimal(port as nat),
        "-Dliminal.auth.token="@ + auth_token,
        "-Dliminal.instance.name="@ + who.spec_name(),
        "-Dliminal.instance.color="@ + who.spec_color(),
        "-Dliminal.window.x="@ + signed_decimal(rect.left as int),
        "-Dliminal.window.y="@ + signed_decimal(rect.top as int),
        "-Dliminal.window.width="@ + signed_decimal(rect.spec_width()),
        "-Dliminal.window.height="@ + signed_decimal(rect.spec_height()),
    ]
}

/// Arguments with which an instance is launched.
pub open spec fn launch_args(
    port: u16,
    auth_token: Seq<char>,
    who: Who,
    rect: Rect,
    hidden: bool,
) -> Seq<Seq<char>> {
    common_args(port, auth_token, who, rect) + if hidden {
        seq!["-Dliminal.window.hidden=true"@, "TestInstance"@]
    } else {
        seq!["TestInstance"@]
    }
}

fn number_arg(key: &str, value: i32) -> (res: String)
    ensures
        res@ == key@ + signed_decimal(value as int),
{
    let mut out = String::from_str(key);
    push_signed(&mut out, value as i64);
    out
}

/// Writes the arguments with which an instance is launched.
pub fn write_launch_args(
    port: u16,
    auth_token: &String,
    who: Who,
    rect: &Rect,
    hidden: bool,
) -> (res: Vec<String>)
    requires
        rect.spec_measurable(),
    ensures
        texts(res@) == launch_args(port, auth_token@, who, *rect, hidden),
{
    let mut address = String::from_str("-Dliminal.connect.address=ws://127.0.0.1:");
    push_decimal(&mut address, port as u64);
    let mut out: Vec<String> = Vec::new();
    out.push(address);
    out.push(String::from_str("-Dliminal.auth.token=").concat(auth_token.as_str()));
    out.push(String::from_str("-Dliminal.instance.name=").concat(who.name()));
    out.push(String::from_str("-Dliminal.instance.color=").concat(who.color()));
    out.push(number_arg("-Dliminal.window.x=", rect.left));
    out.push(number_arg("-Dliminal.window.y=", rect.top));
    out.push(number_arg("-Dliminal.window.width=", rect.width()));
    out.push(number_arg("-Dliminal.window.height=", rect.height()));
    if hidden {
        out.push(String::from_str("-Dliminal.window.hidden=true"));
    }
    out.push(String::from_str("TestInstance"));
    assert(texts(out@) =~= launch_args(port, auth_token@, who, *rect, hidden));
    out
}

/// What waiting for an instance to be ready brings.
#[derive(Debug)]
pub enum ReadyEvent {
    TimedOut,
    Disconnected,
    Received(Msg),
}

/// Why an instance is not ready.
#[derive(Debug, Clone, Copy, PartialEq, Eq, Structural)]
pub enum ReadyError {
    TimedOut,
    Disconnected,
    /// It sent another message.
    NotReady,
}

/// An instance is ready once it says so, whatever name it gives.
pub fn check_ready(event: &ReadyEvent) -> (res: Result<(), ReadyError>)
    ensures
        match *event {
            ReadyEvent::TimedOut => res == Err::<(), ReadyError>(ReadyError::TimedOut),
            ReadyEvent::Disconnected => res == Err::<(), ReadyError>(ReadyError::Disconnected),
            ReadyEvent::Received(msg) => if msg@ is Ready {
                res == Ok::<(), ReadyError>(())
            } else {
                res == Err::<(), ReadyError>(ReadyError::NotReady)
            },
        },
{
    match event {
        ReadyEvent::TimedOut => Err(ReadyError::TimedOut),
        ReadyEvent::Disconnected => Err(ReadyError::Disconnected),
        ReadyEvent::Received(msg) => match msg {
            Msg::Ready { .. } => Ok(()),
            _ => Err(ReadyError::NotReady),
        },
    }
}

impl ReadyError {
    /// How the error reads, where `got` is how the message at hand reads.
    pub open spec fn spec_message(self, who: Who, got: Seq<char>) -> Seq<char> {
        match self {
            ReadyError::TimedOut => who.spec_name() + " did not send ready within "@ + decimal(
                READY_TIMEOUT_SECS as nat,
            ) + "s"@,
            ReadyError::Disconnected => who.spec_name() + " disconnected before ready"@,
            ReadyError::NotReady => "expected Ready from "@ + who.spec_name() + ", got "@ + got,
        }
    }

    /// How the error reads, where `got` is how the message at hand reads.
    pub fn message(&self, who: Who, got: &str) -> (res: String)
        ensures
            res@ == self.spec_message(who, got@),
    {
        match self {
            ReadyError::TimedOut => {
                let mut out = String::from_str(who.name());
                out.append(" did not send ready within ");
                push_decimal(&mut out, READY_TIMEOUT_SECS);
                out.append("s");
                out
            },
            ReadyError::Disconnected => String::from_str(who.name()).concat(
                " disconnected before ready",
            ),
            ReadyError::NotReady => String::from_str("expected Ready from ").concat(
                who.name(),
            ).concat(", got ").concat(got),
        }
    }
}

/// What is read back from a message's text, as JSON, is that message: an object
/// with its tag under `type` and each of its fields under its name, whatever they
/// hold.
pub proof fn a_message_reads_back(m: Msg, res: String)
    requires
        call_ensures(Msg::to_wire, (&m,), res),
    ensures
        match m {
            Msg::Auth { token, protocol_version } => read_object(res@) == Some(
                seq![
                    ("type"@, JsonValue::Text("auth"@)),
                    ("token"@, JsonValue::Text(token@)),
                    ("protocol_version"@, JsonValue::Number(protocol_version as int)),
                ],
            ),
            Msg::Ready { instance_name } => read_object(res@) == Some(
                seq![
                    ("type"@, JsonValue::Text("ready"@)),
                    ("instance_name"@, JsonValue::Text(instance_name@)),
                ],
            ),
            Msg::Bye => read_object(res@) == Some(seq![("type"@, JsonValue::Text("bye"@))]),
            Msg::AuthOk => read_object(res@) == Some(
                seq![("type"@, JsonValue::Text("auth_ok"@))],
            ),
            Msg::AuthRejected { reason } => read_object(res@) == Some(
                seq![
                    ("type"@, JsonValue::Text("auth_rejected"@)),
                    ("reason"@, JsonValue::Text(reason@)),
                ],
            ),
            Msg::ShowWindow => read_object(res@) == Some(
                seq![("type"@, JsonValue::Text("show_window"@))],
            ),
            Msg::Shutdown { reason } => read_object(res@) == Some(
                seq![
                    ("type"@, JsonValue::Text("shutdown"@)),
                    ("reason"@, JsonValue::Text(reason@)),
                ],
            ),
        },
{
    reveal_strlit("ready");
    reveal_strlit("bye");
    reveal_strlit("auth_ok");
    reveal_strlit("auth_rejected");
    reveal_strlit("show_window");
    reveal_strlit("shutdown");
    reveal_strlit("reason");
    reveal_strlit("instance_name");
    assert(is_plain("ready"@) && is_plain("bye"@) && is_plain("auth_ok"@));
    assert(is_plain("auth_rejected"@) && is_plain("show_window"@) && is_plain("shutdown"@));
    assert(is_plain("reason"@) && is_plain("instance_name"@));
    match m {
        Msg::Auth { token, protocol_version } => {
            auth_text_reads_back(token@, protocol_version);
        },
        Msg::Ready { instance_name } => {
            field_text_reads_back("ready"@, "instance_name"@, instance_name@);
        },
        Msg::Bye => {
            unit_text_reads_back("bye"@);
        },
        Msg::AuthOk => {
            unit_text_reads_back("auth_ok"@);
        },
        Msg::AuthRejected { reason } => {
            field_text_reads_back("auth_rejected"@, "reason"@, reason@);
        },
        Msg::ShowWindow => {
            unit_text_reads_back("show_window"@);
        },
        Msg::Shutdown { reason } => {
            field_text_reads_back("shutdown"@, "reason"@, reason@);
        },
    }
}

proof fn mismatch_text(client: u32)
    ensures
        rejection_reason(Rejection::VersionMismatch { client })
            == "protocol_version mismatch (launcher=1, client="@ + decimal(client as nat) + ")"@,
{
    reveal_strlit("protocol_version mismatch (launcher=");
    reveal_strlit(", client=");
    reveal_strlit("protocol_version mismatch (launcher=1, client=");
    assert(decimal(1) =~= seq!['1']);
    assert("protocol_version mismatch (launcher=1, client="@
        =~= "protocol_version mismatch (launcher="@ + decimal(1) + ", client="@);
}

/// `reason` tells that the launcher speaks version one and the instance `client`.
pub open spec fn tells_mismatch(reason: Seq<char>, client: u32) -> bool {
    &&& reason.len() > 0
    &&& reason.last() == ')'
    &&& tells_number(
        reason.drop_last(),
        "protocol_version mismatch (launcher=1, client="@,
        client as int,
    )
}

proof fn mismatch_is_told(client: u32)
    ensures
        tells_mismatch(rejection_reason(Rejection::VersionMismatch { client }), client),
{
    let reason = rejection_reason(Rejection::VersionMismatch { client });
    let head = "protocol_version mismatch (launcher=1, client="@ + decimal(client as nat);
    mismatch_text(client);
    reveal_strlit(")");
    a_numeral_tells_its_number("protocol_version mismatch (launcher=1, client="@, client as int);
    assert(reason.drop_last() =~= head);
    assert(reason.last() == ')');
}

/// An instance turned away for its version is told both: the launcher's, and a
/// number that reads back as its own.
pub proof fn a_rejection_tells_the_version(rejection: Rejection, res: String)
    requires
        call_ensures(write_rejection_reason, (rejection,), res),
    ensures
        rejection == Rejection::BadToken ==> res@ == "bad token"@,
        rejection matches Rejection::VersionMismatch { client } ==> tells_mismatch(res@, client),
{
    if let Rejection::VersionMismatch { client } = rejection {
        mismatch_is_told(client);
    }
}

/// How the first message of a connection is answered: one with the launched
/// instance's token and version one is welcomed, one with another token or version
/// is told why not, and any other gets no answer.
pub proof fn a_first_message_is_answered(auth_token: String, first: Msg, res: Admission)
    requires
        call_ensures(answer_first_message, (&auth_token, &first), res),
    ensures
        match first {
            Msg::Auth { token, protocol_version } => if token@ != auth_token@ {
                &&& res.outcome == Err::<(), AcceptError>(
                    AcceptError::Rejected(Rejection::BadToken),
                )
                &&& res.reply matches Some(Msg::AuthRejected { reason }) && reason@ == "bad token"@
            } else if protocol_version != 1 {
                &&& res.outcome == Err::<(), AcceptError>(
                    AcceptError::Rejected(Rejection::VersionMismatch { client: protocol_version }),
                )
                &&& res.reply matches Some(Msg::AuthRejected { reason }) && tells_mismatch(
                    reason@,
                    protocol_version,
                )
            } else {
                &&& res.outcome == Ok::<(), AcceptError>(())
                &&& res.reply matches Some(Msg::AuthOk)
            },
            _ => {
                &&& res.outcome == Err::<(), AcceptError>(AcceptError::NotAuth)
                &&& res.reply is None
            },
        },
{
    if let Msg::Auth { token, protocol_version } = first {
        mismatch_is_told(protocol_version);
    }
}

/// An error shows the first message in full, at its end, where that was the wrong
/// one; beyond that, nothing in it depends on the message.
pub proof fn an_accept_error_shows_what_came(
    error: AcceptError,
    got: &str,
    nothing: &str,
    res: String,
    bare: String,
)
    requires
        call_ensures(AcceptError::message, (&error, got), res),
        call_ensures(AcceptError::message, (&error, nothing), bare),
        nothing@.len() == 0,
    ensures
        error == AcceptError::NotAuth ==> res@ == bare@ + got@,
        error != AcceptError::NotAuth ==> res@ == bare@,
        error == AcceptError::Rejected(Rejection::BadToken) ==> res@
            == "client sent wrong auth token"@,
        error matches AcceptError::Rejected(Rejection::VersionMismatch { client })
            ==> tells_mismatch(res@, client),
{
    if error == AcceptError::NotAuth {
        assert("expected Auth, got "@ + nothing@ =~= "expected Auth, got "@);
    }
    if let AcceptError::Rejected(Rejection::VersionMismatch { client }) = error {
        mismatch_is_told(client);
    }
}

/// A launched instance is told, in so many arguments, the port and token to connect
/// with, its name and colour, and a place for its window; the numbers read back as
/// the placement that covers the given rectangle, hidden or not and whichever
/// instance it is.
pub proof fn a_launch_tells_the_place(
    port: u16,
    auth_token: String,
    who: Who,
    rect: Rect,
    hidden: bool,
    place: Placement,
    res: Vec<String>,
)
    requires
        call_ensures(write_launch_args, (port, &auth_token, who, &rect, hidden), res),
        place.x == rect.left,
        place.y == rect.top,
        place.x + place.width == rect.right,
        place.y + place.height == rect.bottom,
    ensures
        res@.len() == if hidden {
            10int
        } else {
            9
        },
        tells_number(res@[0]@, "-Dliminal.connect.address=ws://127.0.0.1:"@, port as int),
        res@[1]@ == "-Dliminal.auth.token="@ + auth_token@,
        who == Who::A ==> res@[2]@ == "-Dliminal.instance.name="@ + "A"@,
        who == Who::B ==> res@[2]@ == "-Dliminal.instance.name="@ + "B"@,
        who == Who::A ==> res@[3]@ == "-Dliminal.instance.color="@ + "blue"@,
        who == Who::B ==> res@[3]@ == "-Dliminal.instance.color="@ + "red"@,
        tells_number(res@[4]@, "-Dliminal.window.x="@, place.x as int),
        tells_number(res@[5]@, "-Dliminal.window.y="@, place.y as int),
        tells_number(res@[6]@, "-Dliminal.window.width="@, place.width as int),
        tells_number(res@[7]@, "-Dliminal.window.height="@, place.height as int),
        hidden ==> res@[8]@ == "-Dliminal.window.hidden=true"@,
        res@.last()@ == "TestInstance"@,
{
    let args = launch_args(port, auth_token@, who, rect, hidden);
    texts_are_the_strings(res@);
    assert(texts(res@) == args);
    assert(args.len() == res@.len());
    assert(forall|i: int| 0 <= i < args.len() ==> args[i] == (#[trigger] res@[i])@);
    a_numeral_tells_its_number("-Dliminal.connect.address=ws://127.0.0.1:"@, port as int);
    a_numeral_tells_its_number("-Dliminal.window.x="@, rect.left as int);
    a_numeral_tells_its_number("-Dliminal.window.y="@, rect.top as int);
    a_numeral_tells_its_number("-Dliminal.window.width="@, rect.right - rect.left);
    a_numeral_tells_its_number("-Dliminal.window.height="@, rect.bottom - rect.top);
    assert(args[0] == res@[0]@);
    assert(args[1] == res@[1]@);
    assert(args[2] == res@[2]@);
    assert(args[3] == res@[3]@);
    assert(args[4] == res@[4]@);
    assert(args[5] == res@[5]@);
    assert(args[6] == res@[6]@);
    assert(args[7] == res@[7]@);
    assert(args[8] == res@[8]@);
    assert(args[args.len() - 1] == res@[res@.len() - 1]@);
}

/// Launched alike, the two instances are told the same but for name and colour;
/// and hiding an instance only adds the word to do so.
pub proof fn launches_differ_only_by_name_and_colour(
    port: u16,
    auth_token: String,
    rect: Rect,
    hidden: bool,
    res_a: Vec<String>,
    res_b: Vec<String>,
)
    requires
        call_ensures(write_launch_args, (port, &auth_token, Who::A, &rect, hidden), res_a),
        call_ensures(write_launch_args, (port, &auth_token, Who::B, &rect, hidden), res_b),
    ensures
        res_a@.len() == res_b@.len(),
        forall|i: int|
            0 <= i < res_a@.len() && i != 2 && i != 3 ==> (#[trigger] res_a@[i])@ == res_b@[i]@,
{
    texts_are_the_strings(res_a@);
    texts_are_the_strings(res_b@);
    let args_a = launch_args(port, auth_token@, Who::A, rect, hidden);
    let args_b = launch_args(port, auth_token@, Who::B, rect, hidden);
    assert(args_a.len() == args_b.len());
    assert forall|i: int| 0 <= i < res_a@.len() && i != 2 && i != 3 implies (
    #[trigger] res_a@[i])@ == res_b@[i]@ by {
        assert(texts(res_a@)[i] == res_a@[i]@);
        assert(texts(res_b@)[i] == res_b@[i]@);
        assert(args_a[i] == args_b[i]);
    }
}

/// An instance is ready exactly when it says so, under whatever name.
pub proof fn ready_is_said(event: ReadyEvent, res: Result<(), ReadyError>)
    requires
        call_ensures(check_ready, (&event,), res),
    ensures
        res == Ok::<(), ReadyError>(()) <==> event matches ReadyEvent::Received(Msg::Ready { .. }),
        res == Err::<(), ReadyError>(ReadyError::NotReady) <==> event is Received && !(
        event matches ReadyEvent::Received(Msg::Ready { .. })),
        res == Err::<(), ReadyError>(ReadyError::TimedOut) <==> event is TimedOut,
        res == Err::<(), ReadyError>(ReadyError::Disconnected) <==> event is Disconnected,
{
}

/// An error shows the message that came instead in full, at its end; beyond that,
/// nothing in it depends on the message.
pub proof fn a_ready_error_shows_what_came(
    error: ReadyError,
    who: Who,
    got: &str,
    nothing: &str,
    res: String,
    bare: String,
)
    requires
        call_ensures(ReadyError::message, (&error, who, got), res),
        call_ensures(ReadyError::message, (&error, who, nothing), bare),
        nothing@.len() == 0,
    ensures
        error == ReadyError::NotReady ==> res@ == bare@ + got@,
        error != ReadyError::NotReady ==> res@ == bare@,
{
    if error == ReadyError::NotReady {
        let head = "expected Ready from "@ + who.spec_name() + ", got "@;
        assert(head + nothing@ =~= head);
    }
}

/// An instance can be launched at any rectangle whose extents fit.
pub proof fn any_fitting_rect_can_be_launched_at(
    port: u16,
    auth_token: String,
    who: Who,
    rect: Rect,
    hidden: bool,
)
    requires
        i32::MIN <= rect.right - rect.left <= i32::MAX,
        i32::MIN <= rect.bottom - rect.top <= i32::MAX,
    ensures
        call_requires(write_launch_args, (port, &auth_token, who, &rect, hidden)),
{
}

/// Each instance has its name and colour, a window titled by its name, and its own
/// reason to be shut down; A starts at a fixed place.
pub proof fn each_instance_has_its_name(
    who: Who,
    name: &'static str,
    color: &'static str,
    title: String,
    request: Msg,
    start: Rect,
)
    requires
        call_ensures(Who::name, (&who,), name),
        call_ensures(Who::color, (&who,), color),
        call_ensures(Who::window_title, (&who,), title),
        call_ensures(Who::shutdown_request, (&who,), request),
        call_ensures(initial_instance_rect, (), start),
    ensures
        who == Who::A ==> name@ == "A"@ && color@ == "blue"@,
        who == Who::B ==> name@ == "B"@ && color@ == "red"@,
        title@ == "Liminal Test Instance "@ + name@,
        who == Who::A ==> (request matches Msg::Shutdown { reason } && reason@
            == "transition to B"@),
        who == Who::B ==> (request matches Msg::Shutdown { reason } && reason@
            == "spike complete"@),
        start == (Rect { left: 240, top: 120, right: 1200, bottom: 760 }),
{
}

/// How the errors of an instance that is not ready read, of either.
pub proof fn ready_errors_have_their_texts(
    error: ReadyError,
    who: Who,
    name: &'static str,
    got: &str,
    res: String,
)
    requires
        call_ensures(ReadyError::message, (&error, who, got), res),
        call_ensures(Who::name, (&who,), name),
    ensures
        error == ReadyError::TimedOut ==> res@ == name@ + " did not send ready within 30s"@,
        error == ReadyError::Disconnected ==> res@ == name@ + " disconnected before ready"@,
        error == ReadyError::NotReady ==> res@ == "expected Ready from "@ + name@ + ", got "@
            + got@,
{
    reveal_strlit(" did not send ready within ");
    reveal_strlit("s");
    reveal_strlit(" did not send ready within 30s");
    assert(decimal(3) =~= seq!['3']);
    assert(decimal(30) =~= seq!['3', '0']);
    assert(" did not send ready within "@ + decimal(30) + "s"@
        =~= " did not send ready within 30s"@);
    if error == ReadyError::TimedOut {
        assert(res@ =~= name@ + (" did not send ready within "@ + decimal(30) + "s"@));
    }
}

/// An instance has thirty seconds to connect, and as many to get ready, which is
/// more than any one message has.
pub proof fn an_instance_has_its_time()
    ensures
        CONNECT_TIMEOUT_SECS == 30,
        READY_TIMEOUT_SECS == 30,
        MESSAGE_TIMEOUT_SECS == 10,
        MESSAGE_TIMEOUT_SECS < READY_TIMEOUT_SECS,
{
}

} // verus!
