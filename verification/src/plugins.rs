//! The plugin contract, and the plugins that need nothing but the message
//! they react to.

use vstd::prelude::*;
use vstd::string::*;
use crate::dispatch::{
    collect_round, envelopes, envelopes_of, fault_at, first_fault, outbound_of, round_replies,
    slots_of, sound, Slot, SlotView,
};
use crate::calendar::{date_text, RepublicanDate};
use crate::civil::{republican_of, CivilDate, Moment};
use crate::error::{Error, ErrorView};
use crate::message::{ChatMessage, ChatMessageView, Command, OutboundEnvelope};
use crate::parser::{command_of, ctcp_of, parse_ctcp, single_command, CtcpView, CTCP};
use crate::plugin::{handles_of, Blacklist, PluginHandle, PluginHandleView};
use crate::text::{addressed, padded_text, slice_text, two_digits, with_target};

verus! {

/// The model of what an inbound hook returns.
pub open spec fn reaction_of(outcome: Result<Option<ChatMessage>, Error>) -> Result<
    Option<ChatMessageView>,
    ErrorView,
> {
    match outcome {
        Ok(Some(message)) => Ok(Some(message@)),
        Ok(None) => Ok(None),
        Err(error) => Err(error@),
    }
}

/// The contract that every behavior unit satisfies. A plugin knows nothing
/// of the other plugins.
pub trait Plugin {
    /// The plugin's stable identity.
    spec fn name(&self) -> Seq<char>;

    /// Whether messages from blacklisted sources are kept from the plugin.
    spec fn ignores_blacklisted(&self) -> bool;

    /// The plugin's reaction to one inbound message.
    spec fn reaction(&self, msg: ChatMessageView) -> Result<Option<ChatMessageView>, ErrorView>;

    /// The unique name of the plugin, never empty.
    fn get_name(&self) -> (name: &'static str)
        ensures
            name@ == self.name(),
            name@.len() > 0,
    ;

    /// Whether messages from blacklisted sources are kept from the plugin.
    /// A plugin that must see everything answers `false`.
    fn ignore_blacklisted_users(&self) -> (ignored: bool)
        ensures
            ignored == self.ignores_blacklisted(),
    ;

    /// Invoked for an inbound message; returns the reply to send, if any.
    fn in_message(&self, msg: &ChatMessage) -> (outcome: Result<Option<ChatMessage>, Error>)
        ensures
            reaction_of(outcome) == self.reaction(msg@),
    ;

    /// Invoked for an outbound message that another plugin or the engine
    /// authored.
    fn out_message(&self, msg: &ChatMessage) -> (outcome: Result<(), Error>);
}

/// The engine's handle on `plugin`.
pub fn handle_of<P: Plugin>(plugin: &P) -> (handle: PluginHandle)
    ensures
        handle.wf(),
        handle@ == contract_of(*plugin),
{
    PluginHandle {
        name: String::from_str(plugin.get_name()),
        observes_blacklisted: !plugin.ignore_blacklisted_users(),
    }
}

/// The model of the handle on `plugin`.
pub open spec fn contract_of<P: Plugin>(plugin: P) -> PluginHandleView {
    PluginHandleView { name: plugin.name(), observes_blacklisted: !plugin.ignores_blacklisted() }
}

/// The models of the handles on `plugins`, in order.
pub open spec fn contracts_of<P: Plugin>(plugins: Seq<P>) -> Seq<PluginHandleView> {
    Seq::new(plugins.len(), |i: int| contract_of(plugins[i]))
}

/// What a plugin's slot holds once its inbound hook has returned.
pub open spec fn slot_of(reaction: Result<Option<ChatMessageView>, ErrorView>) -> SlotView {
    match reaction {
        Ok(reply) => SlotView::Reply(reply),
        Err(error) => SlotView::Failure(error),
    }
}

/// What each plugin delivers in a round on `message`: its reaction where it
/// is handed the message, and nothing where it is not.
pub open spec fn deliveries<P: Plugin>(
    plugins: Seq<P>,
    blacklist: Set<Seq<char>>,
    message: ChatMessageView,
) -> Seq<SlotView> {
    Seq::new(
        plugins.len(),
        |i: int|
            if contract_of(plugins[i]).receives(blacklist, message.source) {
                slot_of(plugins[i].reaction(message))
            } else {
                SlotView::Empty
            },
    )
}

/// Invokes the inbound hook of `plugin` and puts the outcome in its slot.
pub fn invoke<P: Plugin>(plugin: &P, message: &ChatMessage) -> (slot: Slot)
    ensures
        slot@ == slot_of(plugin.reaction(message@)),
{
    match plugin.in_message(message) {
        Ok(Some(reply)) => Slot::Reply(Some(reply)),
        Ok(None) => Slot::Reply(None),
        Err(error) => Slot::Failure(error),
    }
}

/// Runs one dispatch round over `plugins`, one after the other: every plugin
/// that is to be handed `message` has its inbound hook invoked, no other
/// has, and the round is collected. The outcome is the envelopes for the
/// outbound broadcaster, in plugin order, or the fault of the first plugin
/// at fault.
pub fn dispatch_round<P: Plugin>(plugins: &Vec<P>, blacklist: &Blacklist, message: &ChatMessage) -> (round:
    Result<Vec<OutboundEnvelope>, Error>)
    ensures
        match round {
            Ok(out) => {
                &&& sound(
                    contracts_of(plugins@),
                    blacklist@,
                    message@.source,
                    deliveries(plugins@, blacklist@, message@),
                )
                &&& envelopes_of(out@) == envelopes(
                    round_replies(
                        contracts_of(plugins@),
                        blacklist@,
                        message@.source,
                        deliveries(plugins@, blacklist@, message@),
                    ),
                )
            },
            Err(error) => exists|k: int|
                first_fault(
                    contracts_of(plugins@),
                    blacklist@,
                    message@.source,
                    deliveries(plugins@, blacklist@, message@),
                    k,
                ) && fault_at(
                    contracts_of(plugins@),
                    blacklist@,
                    message@.source,
                    deliveries(plugins@, blacklist@, message@),
                    k,
                ) == Some(error@),
        },
{
    let mut handles: Vec<PluginHandle> = Vec::with_capacity(plugins.len());
    let mut slots: Vec<Slot> = Vec::with_capacity(plugins.len());
    let mut i: usize = 0;
    while i < plugins.len()
        invariant
            i <= plugins.len(),
            handles.len() == i,
            slots.len() == i,
            forall|j: int| 0 <= j < i ==> handles[j]@ == contract_of(plugins[j]),
            forall|j: int|
                0 <= j < i ==> slots[j]@ == deliveries(plugins@, blacklist@, message@)[j],
        decreases plugins.len() - i,
    {
        let handle = handle_of(&plugins[i]);
        let handed = handle.observes_blacklisted || !blacklist.suppresses(&message.source);
        let slot = if handed {
            invoke(&plugins[i], message)
        } else {
            Slot::Empty
        };
        handles.push(handle);
        slots.push(slot);
        i += 1;
    }
    proof {
        assert(handles_of(handles@) =~= contracts_of(plugins@));
        assert(slots_of(slots@) =~= deliveries(plugins@, blacklist@, message@));
    }
    match collect_round(&handles, blacklist, message, &slots) {
        Ok(replies) => Ok(outbound_of(&replies)),
        Err(error) => Err(error),
    }
}

/// A plugin that repeats every text message to where it came from.
#[derive(Clone, Copy, Debug, PartialEq, Eq)]
pub struct Echo {}

/// What the echo plugin answers to `msg`: to a text message that has a place
/// to answer to, the same text after `echo - `; to anything else, nothing.
pub open spec fn echo_of(msg: ChatMessageView) -> Option<ChatMessageView> {
    if msg.command == Command::Text && msg.response_target() is Some {
        Some(
            ChatMessageView {
                command: Command::Text,
                source: None,
                target: msg.response_target(),
                body: "echo - "@ + msg.body,
            },
        )
    } else {
        None
    }
}

impl Echo {
    /// The message that the echo plugin's background task emits at each
    /// beat.
    pub fn heartbeat() -> (message: ChatMessage)
        ensures
            message@ == (ChatMessageView {
                command: Command::Text,
                source: None,
                target: Some("##gougoutest"@),
                body: "still alive!"@,
            }),
    {
        ChatMessage::text("##gougoutest", String::from_str("still alive!"))
    }
}

impl Plugin for Echo {
    open spec fn name(&self) -> Seq<char> {
        "echo"@
    }

    open spec fn ignores_blacklisted(&self) -> bool {
        true
    }

    open spec fn reaction(&self, msg: ChatMessageView) -> Result<
        Option<ChatMessageView>,
        ErrorView,
    > {
        Ok(echo_of(msg))
    }

    fn get_name(&self) -> (name: &'static str) {
        proof {
            reveal_strlit("echo");
        }
        "echo"
    }

    fn ignore_blacklisted_users(&self) -> (ignored: bool) {
        true
    }

    fn in_message(&self, msg: &ChatMessage) -> (outcome: Result<Option<ChatMessage>, Error>) {
        match msg.command {
            Command::Text => match msg.response_target() {
                Some(place) => {
                    let body = String::from_str("echo - ").concat(msg.body.as_str());
                    Ok(Some(ChatMessage::text(place.as_str(), body)))
                },
                None => Ok(None),
            },
            _ => Ok(None),
        }
    }

    /// The plugin takes no notice of what others send: the hook does
    /// nothing, and succeeds on every message.
    fn out_message(&self, msg: &ChatMessage) -> (outcome: Result<(), Error>)
        ensures
            outcome == Ok::<(), Error>(()),
    {
        Ok(())
    }
}

/// A plugin that tells the date of the republican calendar to whoever asks
/// with the command `date`. It holds the civil date of the day.
#[derive(Clone, Copy, Debug, PartialEq, Eq)]
pub struct RepublicanCalendar {
    pub today: CivilDate,
}

/// What is said of the day `today` to `mb_target`: the republican date in
/// words, addressed to the target where there is one, or why there is no
/// such date.
pub open spec fn date_answer(today: CivilDate, mb_target: Option<Seq<char>>) -> Seq<char> {
    match republican_of(today) {
        Ok(date) => addressed("Nous sommes aujourd'hui le "@ + date_text(date), mb_target),
        Err(text) => text,
    }
}

/// What the calendar plugin answers to `msg` on the day `today`: to the
/// command `date` in a text message that has a place to answer to, the date;
/// to anything else, nothing.
pub open spec fn date_reaction(today: CivilDate, msg: ChatMessageView) -> Option<ChatMessageView> {
    if msg.command == Command::Text && msg.response_target() is Some && command_of(
        "date"@,
        msg.body,
    ) is Some {
        Some(
            ChatMessageView {
                command: Command::Text,
                source: None,
                target: msg.response_target(),
                body: date_answer(today, command_of("date"@, msg.body)->Some_0),
            },
        )
    } else {
        None
    }
}

/// Answers the command `date` on the day `today`.
pub fn handle_command(today: CivilDate, mb_target: &Option<&str>) -> (answer: String)
    ensures
        answer@ == date_answer(today, slice_text(*mb_target)),
{
    match RepublicanDate::try_from(today) {
        Ok(date) => {
            let words = String::from_str("Nous sommes aujourd'hui le ").concat(
                date.to_text().as_str(),
            );
            with_target(words.as_str(), mb_target)
        },
        Err(text) => String::from_str(text),
    }
}

impl Plugin for RepublicanCalendar {
    open spec fn name(&self) -> Seq<char> {
        "date"@
    }

    open spec fn ignores_blacklisted(&self) -> bool {
        true
    }

    open spec fn reaction(&self, msg: ChatMessageView) -> Result<
        Option<ChatMessageView>,
        ErrorView,
    > {
        Ok(date_reaction(self.today, msg))
    }

    fn get_name(&self) -> (name: &'static str) {
        proof {
            reveal_strlit("date");
        }
        "date"
    }

    fn ignore_blacklisted_users(&self) -> (ignored: bool) {
        true
    }

    fn in_message(&self, msg: &ChatMessage) -> (outcome: Result<Option<ChatMessage>, Error>) {
        let place = match msg.response_target() {
            Some(place) => place,
            None => {
                return Ok(None);
            },
        };
        match msg.command {
            Command::Text => match single_command("date", msg.body.as_str()) {
                Some(mb_target) => {
                    let answer = handle_command(self.today, &mb_target);
                    Ok(Some(ChatMessage::text(place.as_str(), answer)))
                },
                None => Ok(None),
            },
            _ => Ok(None),
        }
    }

    /// The plugin takes no notice of what others send: the hook does
    /// nothing, and succeeds on every message.
    fn out_message(&self, msg: &ChatMessage) -> (outcome: Result<(), Error>)
        ensures
            outcome == Ok::<(), Error>(()),
    {
        Ok(())
    }
}

/// A plugin that answers client-to-client requests: for the version, for
/// the time, and pings. It holds the moment at which it is asked.
#[derive(Clone, Copy, Debug, PartialEq, Eq)]
pub struct Ctcp {
    pub now: Moment,
}

/// The time of day of `now` as a clock shows it.
pub open spec fn clock_text(now: Moment) -> Seq<char> {
    padded_text(now.hour as nat) + ":"@ + padded_text(now.minute as nat) + ":"@ + padded_text(
        now.second as nat,
    )
}

/// The answer to a client-to-client request made at the moment `now`: the
/// name of the client; the time of day with the republican date, which fails
/// where there is no such date; or the ping with its argument.
pub open spec fn ctcp_answer(now: Moment, request: CtcpView) -> Result<Seq<char>, ErrorView> {
    match request {
        CtcpView::Version => Ok("rustygolem"@),
        CtcpView::Time => match republican_of(now.date) {
            Ok(date) => Ok("TIME "@ + clock_text(now) + " UTC - "@ + date_text(date)),
            Err(text) => Err(ErrorView::Synthetic(text)),
        },
        CtcpView::Ping(Some(argument)) => Ok("PING"@ + " "@ + argument),
        CtcpView::Ping(None) => Ok("PING"@),
    }
}

/// What the plugin answers to `msg` at the moment `now`: to a request in a
/// text message that has a place to answer to, the answer to the request;
/// to anything else, nothing.
pub open spec fn ctcp_reaction(now: Moment, msg: ChatMessageView) -> Result<
    Option<ChatMessageView>,
    ErrorView,
> {
    if msg.command == Command::Text && msg.response_target() is Some && ctcp_of(msg.body) is Some {
        match ctcp_answer(now, ctcp_of(msg.body)->Some_0) {
            Ok(answer) => Ok(
                Some(
                    ChatMessageView {
                        command: Command::Text,
                        source: None,
                        target: msg.response_target(),
                        body: answer,
                    },
                ),
            ),
            Err(error) => Err(error),
        }
    } else {
        Ok(None)
    }
}

/// Writes the time of day of `now` as a clock shows it.
pub fn clock(now: &Moment) -> (text: String)
    ensures
        text@ == clock_text(*now),
{
    two_digits(now.hour).concat(":").concat(two_digits(now.minute).as_str()).concat(":").concat(
        two_digits(now.second).as_str(),
    )
}

/// Answers a client-to-client request made at the moment `now`.
pub fn handle_ctcp(now: &Moment, request: &CTCP) -> (answer: Result<String, Error>)
    ensures
        match answer {
            Ok(text) => ctcp_answer(*now, request@) == Ok::<Seq<char>, ErrorView>(text@),
            Err(error) => ctcp_answer(*now, request@) == Err::<Seq<char>, ErrorView>(error@),
        },
{
    match request {
        CTCP::VERSION => Ok(String::from_str("rustygolem")),
        CTCP::TIME => match RepublicanDate::try_from(now.date) {
            Ok(date) => Ok(
                String::from_str("TIME ").concat(clock(now).as_str()).concat(" UTC - ").concat(
                    date.to_text().as_str(),
                ),
            ),
            Err(text) => Err(Error::Synthetic(String::from_str(text))),
        },
        CTCP::PING(Some(argument)) => Ok(String::from_str("PING").concat(" ").concat(argument)),
        CTCP::PING(None) => Ok(String::from_str("PING")),
    }
}

impl Plugin for Ctcp {
    open spec fn name(&self) -> Seq<char> {
        "ctcp"@
    }

    open spec fn ignores_blacklisted(&self) -> bool {
        true
    }

    open spec fn reaction(&self, msg: ChatMessageView) -> Result<
        Option<ChatMessageView>,
        ErrorView,
    > {
        ctcp_reaction(self.now, msg)
    }

    fn get_name(&self) -> (name: &'static str) {
        proof {
            reveal_strlit("ctcp");
        }
        "ctcp"
    }

    fn ignore_blacklisted_users(&self) -> (ignored: bool) {
        true
    }

    fn in_message(&self, msg: &ChatMessage) -> (outcome: Result<Option<ChatMessage>, Error>) {
        let place = match msg.response_target() {
            Some(place) => place,
            None => {
                return Ok(None);
            },
        };
        match msg.command {
            Command::Text => match parse_ctcp(msg.body.as_str()) {
                Some(request) => match handle_ctcp(&self.now, &request) {
                    Ok(answer) => Ok(Some(ChatMessage::text(place.as_str(), answer))),
                    Err(error) => Err(error),
                },
                None => Ok(None),
            },
            _ => Ok(None),
        }
    }

    /// The plugin takes no notice of what others send: the hook does
    /// nothing, and succeeds on every message.
    fn out_message(&self, msg: &ChatMessage) -> (outcome: Result<(), Error>)
        ensures
            outcome == Ok::<(), Error>(()),
    {
        Ok(())
    }
}

} // verus!
