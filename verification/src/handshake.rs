//! The authentication handshake, run once against the inbound stream before
//! normal dispatch begins.

use vstd::prelude::*;
use vstd::string::*;
use crate::message::{ChatMessage, ChatMessageView, Command};

verus! {

/// How long each wait of the handshake lasts, in seconds, unless configured
/// otherwise.
pub const DEFAULT_TIMEOUT_SECS: u64 = 10;

/// The numeric reply that reports a successful authentication.
pub const SASL_SUCCESS: u16 = 903;

/// The lowest numeric reply of the authentication mechanism's error range.
pub const SASL_ERROR_FLOOR: u16 = 904;

/// Where the handshake stands.
#[derive(Clone, Copy, Debug, PartialEq, Eq, Structural)]
pub enum HandshakeState {
    /// Nothing was sent yet.
    Start,
    /// The authentication capability was requested; its acknowledgment is
    /// awaited.
    CapRequested,
    /// The capability was acknowledged.
    CapAcked,
    /// The plain mechanism was requested; the server's prompt is awaited.
    AuthenticateRequested,
    /// The server prompted for the credentials.
    AuthenticatePlusReceived,
    /// The credentials were sent; the server's verdict is awaited.
    Credentialed,
    /// The handshake is over and dispatch may begin.
    HandshakeDone,
    /// The handshake failed, for good.
    Failed,
}

/// What drives the handshake forward.
#[derive(Debug, PartialEq, Eq)]
pub enum Event {
    /// The engine is ready to take the next step that waits for nothing.
    Proceed,
    /// A message arrived on the inbound stream.
    Inbound(ChatMessage),
    /// The wait of the current state ran out.
    Timeout,
}

/// Mathematical model of an [`Event`].
pub enum EventView {
    Proceed,
    Inbound(ChatMessageView),
    Timeout,
}

impl View for Event {
    type V = EventView;

    open spec fn view(&self) -> EventView {
        match self {
            Event::Proceed => EventView::Proceed,
            Event::Inbound(message) => EventView::Inbound(message@),
            Event::Timeout => EventView::Timeout,
        }
    }
}

/// The models of a list of messages, in order.
pub open spec fn messages_of(messages: Seq<ChatMessage>) -> Seq<ChatMessageView> {
    Seq::new(messages.len(), |i: int| messages[i]@)
}

/// The models of a list of events, in order.
pub open spec fn events_of(events: Seq<Event>) -> Seq<EventView> {
    Seq::new(events.len(), |i: int| events[i]@)
}

/// One step of the handshake: the state it leads to and the messages to
/// send to the network, in order.
#[derive(Debug, PartialEq, Eq)]
pub struct Transition {
    pub next: HandshakeState,
    pub sends: Vec<ChatMessage>,
}

/// Mathematical model of a [`Transition`].
pub struct TransitionView {
    pub next: HandshakeState,
    pub sends: Seq<ChatMessageView>,
}

impl View for Transition {
    type V = TransitionView;

    open spec fn view(&self) -> TransitionView {
        TransitionView { next: self.next, sends: messages_of(self.sends@) }
    }
}

/// What the handshake is configured with.
#[derive(Debug, PartialEq, Eq)]
pub struct Handshake {
    /// The identity to authenticate as.
    pub nickname: String,
    /// The secret, where one is configured.
    pub password: Option<String>,
    /// How long each wait lasts, in seconds.
    pub timeout_secs: u64,
}

/// Mathematical model of a [`Handshake`].
pub struct HandshakeView {
    pub nickname: Seq<char>,
    pub password: Option<Seq<char>>,
    pub timeout_secs: u64,
}

impl View for Handshake {
    type V = HandshakeView;

    open spec fn view(&self) -> HandshakeView {
        HandshakeView {
            nickname: self.nickname@,
            password: crate::message::text_of(self.password),
            timeout_secs: self.timeout_secs,
        }
    }
}

/// The standard base64 text of the UTF-8 bytes of `input`.
pub uninterp spec fn base64_text(input: Seq<char>) -> Seq<char>;

/// Calls `base64::encode`, which encodes the bytes of its argument with the
/// standard alphabet and padding. The contract only names the result: the
/// same text always gives the same encoding.
#[allow(deprecated)]
#[verifier::external_body]
fn encode_base64(input: &str) -> (encoded: String)
    ensures
        encoded@ == base64_text(input@),
{
    base64::encode(input)
}

/// A message of the engine's own, with the given command and body.
pub open spec fn runtime_message(command: Command, body: Seq<char>) -> ChatMessageView {
    ChatMessageView { command, source: None, target: None, body }
}

/// The request for the authentication capability.
pub open spec fn capability_request() -> ChatMessageView {
    runtime_message(Command::CapabilityRequest, "sasl"@)
}

/// The request for the plain mechanism.
pub open spec fn mechanism_request() -> ChatMessageView {
    runtime_message(Command::Authenticate, "PLAIN"@)
}

/// The end of capability negotiation.
pub open spec fn capability_end() -> ChatMessageView {
    runtime_message(Command::CapabilityEnd, Seq::empty())
}

/// The command that identifies the client as `nickname`.
pub open spec fn identify(nickname: Seq<char>) -> ChatMessageView {
    runtime_message(Command::Identify, nickname)
}

/// The credentials in the plain mechanism's layout: an empty authorization
/// identity, the identity and the secret, each after a NUL.
pub open spec fn plain_payload(nickname: Seq<char>, password: Seq<char>) -> Seq<char> {
    seq!['\0'] + nickname + seq!['\0'] + password
}

/// The message that carries the encoded credentials.
pub open spec fn credentials(encoded: Seq<char>) -> ChatMessageView {
    runtime_message(Command::Authenticate, encoded)
}

/// Whether a numeric reply lies in the mechanism's error range.
pub open spec fn sasl_error(code: u16) -> bool {
    code >= SASL_ERROR_FLOOR
}

/// Whether `message` acknowledges the authentication capability.
pub open spec fn acknowledges(message: ChatMessageView) -> bool {
    message.command == Command::CapabilityAck && message.body == "sasl"@
}

/// Whether `message` is the server's prompt for the credentials.
pub open spec fn prompts(message: ChatMessageView) -> bool {
    message.command == Command::Authenticate && message.body == "+"@
}

/// Whether `message` reports that authentication succeeded.
pub open spec fn succeeds(message: ChatMessageView) -> bool {
    message.command == Command::Reply(SASL_SUCCESS)
}

/// Whether `message` is a reply in the mechanism's error range.
pub open spec fn fails(message: ChatMessageView) -> bool {
    message.command is Reply && sasl_error(message.command->Reply_0)
}

/// Whether `state` waits for a message from the server.
pub open spec fn waits(state: HandshakeState) -> bool {
    state == HandshakeState::CapRequested || state == HandshakeState::AuthenticateRequested
        || state == HandshakeState::Credentialed
}

/// Whether `message` is the one that `state` waits for.
pub open spec fn awaited(state: HandshakeState, message: ChatMessageView) -> bool {
    match state {
        HandshakeState::CapRequested => acknowledges(message),
        HandshakeState::AuthenticateRequested => prompts(message),
        HandshakeState::Credentialed => succeeds(message) || fails(message),
        _ => false,
    }
}

/// A step that changes nothing and sends nothing.
pub open spec fn stay(state: HandshakeState) -> TransitionView {
    TransitionView { next: state, sends: Seq::empty() }
}

/// A step to `next` that sends nothing.
pub open spec fn go(next: HandshakeState) -> TransitionView {
    TransitionView { next, sends: Seq::empty() }
}

/// The handshake's transition relation.
///
/// The three states that wait move on the message they wait for and fail on
/// a timeout; every other inbound message leaves them where they are. The
/// three states that wait for nothing move when the engine proceeds, and
/// send what their step requires. The two final states never move.
pub open spec fn step_of(config: HandshakeView, state: HandshakeState, event: EventView)
    -> TransitionView {
    match (state, event) {
        (HandshakeState::Start, EventView::Proceed) => match config.password {
            None => TransitionView {
                next: HandshakeState::HandshakeDone,
                sends: seq![identify(config.nickname)],
            },
            Some(_) => TransitionView {
                next: HandshakeState::CapRequested,
                sends: seq![capability_request()],
            },
        },
        (HandshakeState::CapRequested, EventView::Inbound(message)) => if acknowledges(message) {
            go(HandshakeState::CapAcked)
        } else {
            stay(state)
        },
        (HandshakeState::CapAcked, EventView::Proceed) => TransitionView {
            next: HandshakeState::AuthenticateRequested,
            sends: seq![mechanism_request()],
        },
        (HandshakeState::AuthenticateRequested, EventView::Inbound(message)) => if prompts(
            message,
        ) {
            go(HandshakeState::AuthenticatePlusReceived)
        } else {
            stay(state)
        },
        (HandshakeState::AuthenticatePlusReceived, EventView::Proceed) => match config.password {
            Some(password) => TransitionView {
                next: HandshakeState::Credentialed,
                sends: seq![credentials(base64_text(plain_payload(config.nickname, password)))],
            },
            None => go(HandshakeState::Failed),
        },
        (HandshakeState::Credentialed, EventView::Inbound(message)) => if fails(message) {
            go(HandshakeState::Failed)
        } else if succeeds(message) {
            TransitionView {
                next: HandshakeState::HandshakeDone,
                sends: seq![capability_end(), identify(config.nickname)],
            }
        } else {
            stay(state)
        },
        (_, EventView::Timeout) => if waits(state) {
            go(HandshakeState::Failed)
        } else {
            stay(state)
        },
        _ => stay(state),
    }
}

/// The state reached from `state` after `events`, taken in order.
pub open spec fn run_of(config: HandshakeView, state: HandshakeState, events: Seq<EventView>)
    -> HandshakeState
    decreases events.len(),
{
    if events.len() == 0 {
        state
    } else {
        run_of(config, step_of(config, state, events[0]).next, events.drop_first())
    }
}

/// Everything sent on the way from `state` through `events`, in order.
pub open spec fn sends_of(config: HandshakeView, state: HandshakeState, events: Seq<EventView>)
    -> Seq<ChatMessageView>
    decreases events.len(),
{
    if events.len() == 0 {
        Seq::empty()
    } else {
        let first = step_of(config, state, events[0]);
        first.sends + sends_of(config, first.next, events.drop_first())
    }
}

/// Whether a numeric reply lies in the mechanism's error range. Replies 900
/// to 903 report progress and success; the errors start above them.
pub fn is_sasl_error(code: u16) -> (error: bool)
    ensures
        error == sasl_error(code),
{
    code >= SASL_ERROR_FLOOR
}

/// Whether `state` waits for a message from the server, bounded by the
/// timeout.
pub fn is_waiting(state: HandshakeState) -> (waiting: bool)
    ensures
        waiting == waits(state),
{
    match state {
        HandshakeState::CapRequested => true,
        HandshakeState::AuthenticateRequested => true,
        HandshakeState::Credentialed => true,
        _ => false,
    }
}

/// Whether normal dispatch may begin: only once the handshake is done.
pub fn may_dispatch(state: HandshakeState) -> (open: bool)
    ensures
        open == (state == HandshakeState::HandshakeDone),
{
    match state {
        HandshakeState::HandshakeDone => true,
        _ => false,
    }
}

/// Whether `message` is the one that `state` waits for; the handshake reads
/// past every other message.
pub fn wait_for_message(state: HandshakeState, message: &ChatMessage) -> (matched: bool)
    ensures
        matched == awaited(state, message@),
{
    match state {
        HandshakeState::CapRequested => match message.command {
            Command::CapabilityAck => message.body == String::from_str("sasl"),
            _ => false,
        },
        HandshakeState::AuthenticateRequested => match message.command {
            Command::Authenticate => message.body == String::from_str("+"),
            _ => false,
        },
        HandshakeState::Credentialed => match message.command {
            Command::Reply(code) => code == SASL_SUCCESS || is_sasl_error(code),
            _ => false,
        },
        _ => false,
    }
}

/// Builds a message of the engine's own.
pub fn make_runtime_message(command: Command, body: String) -> (message: ChatMessage)
    ensures
        message@ == runtime_message(command, body@),
{
    ChatMessage { command, source: None, target: None, body }
}

/// Lays the credentials out for the plain mechanism.
pub fn make_plain_payload(nickname: &String, password: &String) -> (payload: String)
    ensures
        payload@ == plain_payload(nickname@, password@),
{
    proof {
        reveal_strlit("\0");
        assert("\0"@ =~= seq!['\0']);
    }
    String::from_str("\0").concat(nickname.as_str()).concat("\0").concat(password.as_str())
}

/// The step taken once the server prompted for the credentials and
/// `encoded` is their encoding: they are sent, and the verdict is awaited.
pub fn send_credentials(encoded: String) -> (step: Transition)
    ensures
        step@ == (TransitionView {
            next: HandshakeState::Credentialed,
            sends: seq![credentials(encoded@)],
        }),
{
    let mut sends: Vec<ChatMessage> = Vec::new();
    sends.push(make_runtime_message(Command::Authenticate, encoded));
    proof {
        assert(messages_of(sends@) =~= seq![credentials(encoded@)]);
    }
    Transition { next: HandshakeState::Credentialed, sends }
}

impl Handshake {
    /// A handshake for `nickname` with the default timeout.
    pub fn new(nickname: String, password: Option<String>) -> (handshake: Handshake)
        ensures
            handshake@ == (HandshakeView {
                nickname: nickname@,
                password: crate::message::text_of(password),
                timeout_secs: DEFAULT_TIMEOUT_SECS,
            }),
    {
        Handshake { nickname, password, timeout_secs: DEFAULT_TIMEOUT_SECS }
    }

    /// How long the engine waits in `state`, in seconds: the configured
    /// timeout where the state waits, and not at all elsewhere.
    pub fn wait_limit(&self, state: HandshakeState) -> (limit: Option<u64>)
        ensures
            limit == if waits(state) {
                Some(self.timeout_secs)
            } else {
                None
            },
    {
        if is_waiting(state) {
            Some(self.timeout_secs)
        } else {
            None
        }
    }

    /// The first step. Without a credential the client identifies itself
    /// and the handshake is done; with one, the authentication capability
    /// is requested.
    pub fn authenticate_and_identify(&self) -> (step: Transition)
        ensures
            step@ == step_of(self@, HandshakeState::Start, EventView::Proceed),
    {
        let mut sends: Vec<ChatMessage> = Vec::new();
        match &self.password {
            None => {
                sends.push(make_runtime_message(Command::Identify, self.nickname.clone()));
                proof {
                    assert(messages_of(sends@) =~= seq![identify(self@.nickname)]);
                }
                Transition { next: HandshakeState::HandshakeDone, sends }
            },
            Some(_) => {
                sends.push(
                    make_runtime_message(Command::CapabilityRequest, String::from_str("sasl")),
                );
                proof {
                    assert(messages_of(sends@) =~= seq![capability_request()]);
                }
                Transition { next: HandshakeState::CapRequested, sends }
            },
        }
    }

    /// One step of the handshake from `state` on `event`.
    pub fn sasl_auth(&self, state: HandshakeState, event: &Event) -> (step: Transition)
        ensures
            step@ == step_of(self@, state, event@),
    {
        let mut sends: Vec<ChatMessage> = Vec::new();
        proof {
            assert(messages_of(sends@) =~= Seq::empty());
        }
        match event {
            Event::Proceed => match state {
                HandshakeState::Start => self.authenticate_and_identify(),
                HandshakeState::CapAcked => {
                    sends.push(
                        make_runtime_message(Command::Authenticate, String::from_str("PLAIN")),
                    );
                    proof {
                        assert(messages_of(sends@) =~= seq![mechanism_request()]);
                    }
                    Transition { next: HandshakeState::AuthenticateRequested, sends }
                },
                HandshakeState::AuthenticatePlusReceived => match &self.password {
                    Some(password) => {
                        let payload = make_plain_payload(&self.nickname, password);
                        send_credentials(encode_base64(payload.as_str()))
                    },
                    None => Transition { next: HandshakeState::Failed, sends },
                },
                _ => Transition { next: state, sends },
            },
            Event::Timeout => if is_waiting(state) {
                Transition { next: HandshakeState::Failed, sends }
            } else {
                Transition { next: state, sends }
            },
            Event::Inbound(message) => {
                if !wait_for_message(state, message) {
                    return Transition { next: state, sends };
                }
                match state {
                    HandshakeState::CapRequested => Transition {
                        next: HandshakeState::CapAcked,
                        sends,
                    },
                    HandshakeState::AuthenticateRequested => Transition {
                        next: HandshakeState::AuthenticatePlusReceived,
                        sends,
                    },
                    HandshakeState::Credentialed => {
                        let failed = match message.command {
                            Command::Reply(code) => is_sasl_error(code),
                            _ => false,
                        };
                        if failed {
                            Transition { next: HandshakeState::Failed, sends }
                        } else {
                            sends.push(
                                make_runtime_message(Command::CapabilityEnd, String::new()),
                            );
                            sends.push(
                                make_runtime_message(Command::Identify, self.nickname.clone()),
                            );
                            proof {
                                assert(messages_of(sends@) =~= seq![
                                    capability_end(),
                                    identify(self@.nickname),
                                ]);
                            }
                            Transition { next: HandshakeState::HandshakeDone, sends }
                        }
                    },
                    _ => Transition { next: state, sends },
                }
            },
        }
    }

    /// Replays `events`, in order, from `state`: the state reached, and
    /// everything sent on the way.
    pub fn replay(&self, state: HandshakeState, events: &Vec<Event>) -> (outcome: Transition)
        ensures
            outcome@.next == run_of(self@, state, events_of(events@)),
            outcome@.sends == sends_of(self@, state, events_of(events@)),
    {
        let ghost all = events_of(events@);
        let mut current = state;
        let mut sends: Vec<ChatMessage> = Vec::new();
        let mut i: usize = 0;
        proof {
            assert(all.skip(0) =~= all);
            assert(messages_of(sends@) =~= Seq::empty());
        }
        while i < events.len()
            invariant
                i <= events.len(),
                all == events_of(events@),
                run_of(self@, state, all) == run_of(self@, current, all.skip(i as int)),
                sends_of(self@, state, all) == messages_of(sends@) + sends_of(
                    self@,
                    current,
                    all.skip(i as int),
                ),
            decreases events.len() - i,
        {
            let step = self.sasl_auth(current, &events[i]);
            proof {
                assert(all.skip(i as int)[0] == events[i as int]@);
                assert(all.skip(i as int).drop_first() =~= all.skip(i + 1));
            }
            let ghost before = messages_of(sends@);
            let mut k: usize = 0;
            while k < step.sends.len()
                invariant
                    k <= step.sends.len(),
                    messages_of(sends@) == before + messages_of(step.sends@).take(k as int),
                decreases step.sends.len() - k,
            {
                let ghost earlier = messages_of(sends@);
                let copy = step.sends[k].clone();
                sends.push(copy);
                proof {
                    assert(messages_of(sends@) =~= earlier.push(copy@));
                    assert(messages_of(step.sends@).take(k + 1) =~= messages_of(
                        step.sends@,
                    ).take(k as int).push(step.sends[k as int]@));
                    assert(messages_of(sends@) =~= before + messages_of(step.sends@).take(
                        k + 1,
                    ));
                }
                k += 1;
            }
            proof {
                assert(messages_of(step.sends@).take(step.sends.len() as int) =~= messages_of(
                    step.sends@,
                ));
                assert(before + step@.sends + sends_of(self@, step.next, all.skip(i + 1)) =~= before
                    + (step@.sends + sends_of(self@, step.next, all.skip(i + 1))));
            }
            current = step.next;
            i += 1;
        }
        Transition { next: current, sends }
    }
}

} // verus!
