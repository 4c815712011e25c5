//! One dispatch round: which plugins are handed an inbound message, and
//! what is recorded from the slots they fill.

use vstd::prelude::*;
use vstd::string::*;
use crate::error::{Error, ErrorView};
use crate::message::{
    ChatMessage, ChatMessageView, Origin, OriginView, OutboundEnvelope, OutboundEnvelopeView,
};
use crate::plugin::{handles_of, Blacklist, PluginHandle, PluginHandleView};

verus! {

/// How many plugin hooks are in flight at once, unless configured otherwise.
pub const DEFAULT_CONCURRENCY: usize = 5;

/// The single-use slot through which one plugin hands in the outcome of its
/// inbound hook for one round.
#[derive(Debug, PartialEq, Eq)]
pub enum Slot {
    /// Nothing was delivered.
    Empty,
    /// The hook returned, with or without a reply.
    Reply(Option<ChatMessage>),
    /// The hook failed.
    Failure(Error),
}

/// Mathematical model of a [`Slot`].
pub enum SlotView {
    Empty,
    Reply(Option<ChatMessageView>),
    Failure(ErrorView),
}

impl View for Slot {
    type V = SlotView;

    open spec fn view(&self) -> SlotView {
        match self {
            Slot::Empty => SlotView::Empty,
            Slot::Reply(Some(message)) => SlotView::Reply(Some(message@)),
            Slot::Reply(None) => SlotView::Reply(None),
            Slot::Failure(error) => SlotView::Failure(error@),
        }
    }
}

/// The models of a list of slots, in order.
pub open spec fn slots_of(slots: Seq<Slot>) -> Seq<SlotView> {
    Seq::new(slots.len(), |i: int| slots[i]@)
}

/// The slot of plugin `i`; a slot that is missing counts as empty.
pub open spec fn slot_at(slots: Seq<SlotView>, i: int) -> SlotView {
    if 0 <= i < slots.len() {
        slots[i]
    } else {
        SlotView::Empty
    }
}

/// The text with which a failure of the inbound hook of `name` is wrapped.
pub open spec fn inbound_context(name: Seq<char>) -> Seq<char> {
    "in_message error from plugin "@ + name
}

/// The error raised when a plugin that was invoked delivered nothing.
pub open spec fn undelivered() -> ErrorView {
    ErrorView::Synthetic("cannot send plugin message !"@)
}

/// What goes wrong for one plugin in one round, if anything. A plugin that
/// is not handed the message cannot fail; one that is fails when its hook
/// fails or when its slot stays empty.
pub open spec fn slot_fault(handle: PluginHandleView, invoked: bool, slot: SlotView) -> Option<
    ErrorView,
> {
    if !invoked {
        None
    } else {
        match slot {
            SlotView::Empty => Some(undelivered()),
            SlotView::Failure(error) => Some(error.within(inbound_context(handle.name))),
            SlotView::Reply(_) => None,
        }
    }
}

/// What is recorded for one plugin in one round: its reply tagged with its
/// name, or nothing where it was not invoked or did not reply.
pub open spec fn slot_reply(handle: PluginHandleView, invoked: bool, slot: SlotView) -> Option<
    OutboundEnvelopeView,
> {
    if invoked && slot is Reply && slot->Reply_0 is Some {
        Some(
            OutboundEnvelopeView {
                origin: OriginView::Plugin(handle.name),
                message: slot->Reply_0->Some_0,
            },
        )
    } else {
        None
    }
}

/// The model of an optional envelope.
pub open spec fn envelope_of(entry: Option<OutboundEnvelope>) -> Option<OutboundEnvelopeView> {
    match entry {
        Some(envelope) => Some(envelope@),
        None => None,
    }
}

/// The fault of plugin `i` in a round on a message from `source`.
pub open spec fn fault_at(
    plugins: Seq<PluginHandleView>,
    blacklist: Set<Seq<char>>,
    source: Option<Seq<char>>,
    slots: Seq<SlotView>,
    i: int,
) -> Option<ErrorView> {
    slot_fault(plugins[i], plugins[i].receives(blacklist, source), slot_at(slots, i))
}

/// What is recorded for plugin `i` in a round on a message from `source`.
pub open spec fn reply_at(
    plugins: Seq<PluginHandleView>,
    blacklist: Set<Seq<char>>,
    source: Option<Seq<char>>,
    slots: Seq<SlotView>,
    i: int,
) -> Option<OutboundEnvelopeView> {
    slot_reply(plugins[i], plugins[i].receives(blacklist, source), slot_at(slots, i))
}

/// Plugin `k` is the first, in the order of the plugin list, that is at
/// fault in the round.
pub open spec fn first_fault(
    plugins: Seq<PluginHandleView>,
    blacklist: Set<Seq<char>>,
    source: Option<Seq<char>>,
    slots: Seq<SlotView>,
    k: int,
) -> bool {
    &&& 0 <= k < plugins.len()
    &&& fault_at(plugins, blacklist, source, slots, k) is Some
    &&& forall|j: int| 0 <= j < k ==> fault_at(plugins, blacklist, source, slots, j) is None
}

/// What a round on a message from `source` records, plugin by plugin.
pub open spec fn round_replies(
    plugins: Seq<PluginHandleView>,
    blacklist: Set<Seq<char>>,
    source: Option<Seq<char>>,
    slots: Seq<SlotView>,
) -> Seq<Option<OutboundEnvelopeView>> {
    Seq::new(plugins.len(), |i: int| reply_at(plugins, blacklist, source, slots, i))
}

/// The replies that a round recorded, without the gaps and in plugin order.
pub open spec fn envelopes(replies: Seq<Option<OutboundEnvelopeView>>) -> Seq<
    OutboundEnvelopeView,
>
    decreases replies.len(),
{
    if replies.len() == 0 {
        Seq::empty()
    } else {
        let rest = envelopes(replies.drop_last());
        match replies.last() {
            Some(envelope) => rest.push(envelope),
            None => rest,
        }
    }
}

/// Decides, plugin by plugin, who is handed an inbound message: everyone,
/// unless the message's source is blacklisted, and then only the plugins
/// that asked to see blacklisted sources.
pub fn recipients(plugins: &Vec<PluginHandle>, blacklist: &Blacklist, message: &ChatMessage) -> (invoke:
    Vec<bool>)
    ensures
        invoke.len() == plugins.len(),
        forall|i: int|
            0 <= i < plugins.len() ==> invoke[i] == plugins[i]@.receives(
                blacklist@,
                message@.source,
            ),
{
    let mut invoke: Vec<bool> = Vec::with_capacity(plugins.len());
    let mut i: usize = 0;
    while i < plugins.len()
        invariant
            i <= plugins.len(),
            invoke.len() == i,
            forall|j: int|
                0 <= j < i ==> invoke[j] == plugins[j]@.receives(blacklist@, message@.source),
        decreases plugins.len() - i,
    {
        // the blacklist is consulted anew for every plugin
        let handed = plugins[i].observes_blacklisted || !blacklist.suppresses(&message.source);
        invoke.push(handed);
        i += 1;
    }
    invoke
}

/// Reads the slot of one plugin: the envelope to record, or the fault.
pub fn read_slot(handle: &PluginHandle, invoked: bool, slot: &Slot) -> (outcome: Result<
    Option<OutboundEnvelope>,
    Error,
>)
    ensures
        match outcome {
            Ok(entry) => slot_fault(handle@, invoked, slot@) is None && envelope_of(entry)
                == slot_reply(handle@, invoked, slot@),
            Err(error) => slot_fault(handle@, invoked, slot@) == Some(error@),
        },
{
    if !invoked {
        return Ok(None);
    }
    match slot {
        Slot::Empty => Err(Error::Synthetic(String::from_str("cannot send plugin message !"))),
        Slot::Failure(error) => {
            let ctx = String::from_str("in_message error from plugin ").concat(
                handle.name.as_str(),
            );
            Err(error.within(ctx))
        },
        Slot::Reply(None) => Ok(None),
        Slot::Reply(Some(message)) => Ok(
            Some(
                OutboundEnvelope {
                    origin: Origin::Plugin(handle.name.clone()),
                    message: message.clone(),
                },
            ),
        ),
    }
}

/// No plugin is at fault in the round.
pub open spec fn sound(
    plugins: Seq<PluginHandleView>,
    blacklist: Set<Seq<char>>,
    source: Option<Seq<char>>,
    slots: Seq<SlotView>,
) -> bool {
    forall|i: int| 0 <= i < plugins.len() ==> fault_at(plugins, blacklist, source, slots, i) is None
}

/// The models of a round's entries, in order.
pub open spec fn entries_of(replies: Seq<Option<OutboundEnvelope>>) -> Seq<
    Option<OutboundEnvelopeView>,
> {
    Seq::new(replies.len(), |i: int| envelope_of(replies[i]))
}

/// The models of a list of envelopes, in order.
pub open spec fn envelopes_of(out: Seq<OutboundEnvelope>) -> Seq<OutboundEnvelopeView> {
    Seq::new(out.len(), |i: int| out[i]@)
}

/// Collects one round. `slots[i]` is what plugin `i` delivered for the
/// inbound `message`. The round succeeds when no plugin is at fault, and
/// then records, for each plugin in order, its tagged reply or nothing; a
/// plugin that was not handed the message has nothing recorded whatever its
/// slot holds. Otherwise the round fails with the fault of the first plugin
/// at fault.
pub fn collect_round(
    plugins: &Vec<PluginHandle>,
    blacklist: &Blacklist,
    message: &ChatMessage,
    slots: &Vec<Slot>,
) -> (round: Result<Vec<Option<OutboundEnvelope>>, Error>)
    ensures
        match round {
            Ok(replies) => {
                &&& sound(handles_of(plugins@), blacklist@, message@.source, slots_of(slots@))
                &&& entries_of(replies@) == round_replies(
                    handles_of(plugins@),
                    blacklist@,
                    message@.source,
                    slots_of(slots@),
                )
            },
            Err(error) => exists|k: int|
                first_fault(handles_of(plugins@), blacklist@, message@.source, slots_of(slots@), k)
                    && fault_at(
                    handles_of(plugins@),
                    blacklist@,
                    message@.source,
                    slots_of(slots@),
                    k,
                ) == Some(error@),
        },
{
    let ghost handles = handles_of(plugins@);
    let ghost delivered = slots_of(slots@);
    let mut replies: Vec<Option<OutboundEnvelope>> = Vec::with_capacity(plugins.len());
    let suppressed = blacklist.suppresses(&message.source);
    let empty = Slot::Empty;
    let mut i: usize = 0;
    while i < plugins.len()
        invariant
            i <= plugins.len(),
            replies.len() == i,
            handles == handles_of(plugins@),
            delivered == slots_of(slots@),
            empty@ == SlotView::Empty,
            suppressed == crate::plugin::suppressed(blacklist@, message@.source),
            forall|j: int|
                0 <= j < i ==> fault_at(handles, blacklist@, message@.source, delivered, j) is None,
            forall|j: int|
                0 <= j < i ==> envelope_of(replies[j]) == reply_at(
                    handles,
                    blacklist@,
                    message@.source,
                    delivered,
                    j,
                ),
        decreases plugins.len() - i,
    {
        let invoked = plugins[i].observes_blacklisted || !suppressed;
        let slot = if i < slots.len() {
            &slots[i]
        } else {
            &empty
        };
        match read_slot(&plugins[i], invoked, slot) {
            Ok(entry) => {
                replies.push(entry);
            },
            Err(error) => {
                assert(first_fault(handles, blacklist@, message@.source, delivered, i as int));
                return Err(error);
            },
        }
        i += 1;
    }
    proof {
        assert(entries_of(replies@) =~= round_replies(
            handles,
            blacklist@,
            message@.source,
            delivered,
        ));
    }
    Ok(replies)
}

/// Takes the recorded replies out of a round's result, in plugin order.
pub fn outbound_of(replies: &Vec<Option<OutboundEnvelope>>) -> (out: Vec<OutboundEnvelope>)
    ensures
        envelopes_of(out@) == envelopes(entries_of(replies@)),
{
    let mut out: Vec<OutboundEnvelope> = Vec::new();
    let ghost all = entries_of(replies@);
    let mut i: usize = 0;
    proof {
        assert(all.take(0) =~= Seq::empty());
        assert(envelopes_of(out@) =~= Seq::empty());
    }
    while i < replies.len()
        invariant
            i <= replies.len(),
            all == entries_of(replies@),
            envelopes_of(out@) == envelopes(all.take(i as int)),
        decreases replies.len() - i,
    {
        let ghost before = envelopes_of(out@);
        proof {
            assert(all.take(i + 1).drop_last() =~= all.take(i as int));
            assert(all.take(i + 1).last() == envelope_of(replies[i as int]));
        }
        match &replies[i] {
            Some(envelope) => {
                out.push(envelope.clone());
                proof {
                    assert(envelopes_of(out@) =~= before.push(envelope@));
                }
            },
            None => {},
        }
        i += 1;
    }
    proof {
        assert(all.take(replies.len() as int) =~= all);
    }
    out
}

} // verus!
