//! Chat messages and the envelopes that carry them outbound.

use vstd::prelude::*;
use vstd::string::*;

verus! {

/// What kind of event a chat message is.
#[derive(Clone, Copy, Debug, PartialEq, Eq, Structural)]
pub enum Command {
    /// A text message to a channel or a user; the body is the text.
    Text,
    /// A notice to a channel or a user; the body is the text.
    Notice,
    /// A request for protocol capabilities; the body names them.
    CapabilityRequest,
    /// The server's acknowledgment of capabilities; the body names them.
    CapabilityAck,
    /// The end of capability negotiation.
    CapabilityEnd,
    /// One step of the authentication exchange; the body is its payload.
    Authenticate,
    /// The command by which the client identifies itself; the body is its
    /// nickname.
    Identify,
    /// A numeric reply of the server.
    Reply(u16),
    /// Anything else.
    Other,
}

/// One inbound or outbound chat event.
#[derive(Debug, PartialEq, Eq)]
pub struct ChatMessage {
    pub command: Command,
    /// The identity the message comes from, where it has one.
    pub source: Option<String>,
    /// The channel or user the message is addressed to, where it has one.
    pub target: Option<String>,
    pub body: String,
}

/// Mathematical model of a [`ChatMessage`].
pub struct ChatMessageView {
    pub command: Command,
    pub source: Option<Seq<char>>,
    pub target: Option<Seq<char>>,
    pub body: Seq<char>,
}

/// The text held by an optional string.
pub open spec fn text_of(value: Option<String>) -> Option<Seq<char>> {
    match value {
        Some(text) => Some(text@),
        None => None,
    }
}

/// Whether `name` names a channel: it starts with `#`, `&`, `+` or `!`.
pub open spec fn is_channel_name(name: Seq<char>) -> bool {
    name.len() > 0 && (name[0] == '#' || name[0] == '&' || name[0] == '+' || name[0] == '!')
}

impl View for ChatMessage {
    type V = ChatMessageView;

    open spec fn view(&self) -> ChatMessageView {
        ChatMessageView {
            command: self.command,
            source: text_of(self.source),
            target: text_of(self.target),
            body: self.body@,
        }
    }
}

impl ChatMessageView {
    /// Where an answer to this message should go: the channel a text
    /// message or notice was sent to, and in every other case the source.
    pub open spec fn response_target(self) -> Option<Seq<char>> {
        if (self.command == Command::Text || self.command == Command::Notice)
            && self.target is Some && is_channel_name(self.target->Some_0) {
            self.target
        } else {
            self.source
        }
    }
}

/// Copies an optional string.
pub fn clone_text(value: &Option<String>) -> (copy: Option<String>)
    ensures
        text_of(copy) == text_of(*value),
{
    match value {
        Some(text) => Some(text.clone()),
        None => None,
    }
}

impl Clone for ChatMessage {
    fn clone(&self) -> (copy: Self)
        ensures
            copy@ == self@,
    {
        ChatMessage {
            command: self.command,
            source: clone_text(&self.source),
            target: clone_text(&self.target),
            body: self.body.clone(),
        }
    }
}

impl ChatMessage {
    /// A text message with the given body, addressed to `target`.
    pub fn text(target: &str, body: String) -> (message: ChatMessage)
        ensures
            message@ == (ChatMessageView {
                command: Command::Text,
                source: None,
                target: Some(target@),
                body: body@,
            }),
    {
        ChatMessage {
            command: Command::Text,
            source: None,
            target: Some(String::from_str(target)),
            body,
        }
    }

    /// Where an answer to this message should go.
    pub fn response_target(&self) -> (place: Option<&String>)
        ensures
            match place {
                Some(name) => self@.response_target() == Some(name@),
                None => self@.response_target() is None,
            },
    {
        let addressed = match self.command {
            Command::Text => true,
            Command::Notice => true,
            _ => false,
        };
        if addressed {
            match &self.target {
                Some(name) => {
                    if name.as_str().unicode_len() > 0 {
                        let first = name.as_str().get_char(0);
                        if first == '#' || first == '&' || first == '+' || first == '!' {
                            return Some(name);
                        }
                    }
                },
                None => {},
            }
        }
        self.source.as_ref()
    }
}

/// Who authored an outbound message.
#[derive(Debug, PartialEq, Eq)]
pub enum Origin {
    /// The engine itself.
    Runtime,
    /// The plugin of this name.
    Plugin(String),
}

/// Mathematical model of an [`Origin`].
pub enum OriginView {
    Runtime,
    Plugin(Seq<char>),
}

impl View for Origin {
    type V = OriginView;

    open spec fn view(&self) -> OriginView {
        match self {
            Origin::Runtime => OriginView::Runtime,
            Origin::Plugin(name) => OriginView::Plugin(name@),
        }
    }
}

impl Clone for Origin {
    fn clone(&self) -> (copy: Self)
        ensures
            copy@ == self@,
    {
        match self {
            Origin::Runtime => Origin::Runtime,
            Origin::Plugin(name) => Origin::Plugin(name.clone()),
        }
    }
}

/// An outbound message tagged with its author.
#[derive(Debug, PartialEq, Eq)]
pub struct OutboundEnvelope {
    pub origin: Origin,
    pub message: ChatMessage,
}

/// Mathematical model of an [`OutboundEnvelope`].
pub struct OutboundEnvelopeView {
    pub origin: OriginView,
    pub message: ChatMessageView,
}

impl View for OutboundEnvelope {
    type V = OutboundEnvelopeView;

    open spec fn view(&self) -> OutboundEnvelopeView {
        OutboundEnvelopeView { origin: self.origin@, message: self.message@ }
    }
}

impl Clone for OutboundEnvelope {
    fn clone(&self) -> (copy: Self)
        ensures
            copy@ == self@,
    {
        OutboundEnvelope { origin: self.origin.clone(), message: self.message.clone() }
    }
}

} // verus!
