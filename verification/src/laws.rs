//! What holds of the engine as a whole, proved from the contracts of its
//! parts.

use vstd::prelude::*;
use crate::dispatch::{
    envelopes, fault_at, reply_at, round_replies, slot_at, slot_fault, slot_reply, sound, SlotView,
};
use crate::handshake::{
    acknowledges, run_of, sends_of, step_of, EventView, HandshakeState, HandshakeView,
};
use crate::message::{ChatMessageView, OriginView, OutboundEnvelopeView};
use crate::plugin::PluginHandleView;
use crate::supervisor::{supervision_of, TaskEventView};

verus! {

/// A plugin is never told of a message that it authored: neither of its
/// reply in a dispatch round, nor of a message that its background task
/// emitted.
pub proof fn law_no_self_feedback(
    plugins: Seq<PluginHandleView>,
    blacklist: Set<Seq<char>>,
    source: Option<Seq<char>>,
    slots: Seq<SlotView>,
    i: int,
    emitted: ChatMessageView,
)
    requires
        0 <= i < plugins.len(),
    ensures
        !plugins[i].observes(OriginView::Plugin(plugins[i].name)),
        reply_at(plugins, blacklist, source, slots, i) is Some ==> !plugins[i].observes(
            reply_at(plugins, blacklist, source, slots, i)->Some_0.origin,
        ),
        supervision_of(plugins[i], TaskEventView::Emitted(emitted)) is Publish,
        !plugins[i].observes(
            supervision_of(plugins[i], TaskEventView::Emitted(emitted))->Publish_0.origin,
        ),
{
}

/// Every plugin but the author is told of an outbound message: the origin
/// alone excludes, so two plugins may react to each other's messages.
pub proof fn law_others_observe(author: PluginHandleView, other: PluginHandleView)
    requires
        author.name != other.name,
    ensures
        other.observes(OriginView::Plugin(author.name)),
        other.observes(OriginView::Runtime),
{
}

/// A plugin that did not ask for blacklisted sources is not handed a
/// message from a blacklisted source, and nothing is recorded for it in
/// that round, whatever its slot holds.
pub proof fn law_blacklist_enforced(
    handle: PluginHandleView,
    blacklist: Set<Seq<char>>,
    source: Seq<char>,
    slot: SlotView,
)
    requires
        blacklist.contains(source),
        !handle.observes_blacklisted,
    ensures
        !handle.receives(blacklist, Some(source)),
        slot_reply(handle, handle.receives(blacklist, Some(source)), slot) is None,
        slot_fault(handle, handle.receives(blacklist, Some(source)), slot) is None,
{
}

/// A plugin that asked for blacklisted sources is handed every message, and
/// its reply is recorded.
pub proof fn law_blacklist_override(
    handle: PluginHandleView,
    blacklist: Set<Seq<char>>,
    source: Option<Seq<char>>,
    reply: ChatMessageView,
)
    requires
        handle.observes_blacklisted,
    ensures
        handle.receives(blacklist, source),
        slot_reply(handle, handle.receives(blacklist, source), SlotView::Reply(Some(reply)))
            == Some(
            OutboundEnvelopeView { origin: OriginView::Plugin(handle.name), message: reply },
        ),
{
}

/// Where every entry holds an envelope, all of them come out, in order.
proof fn lemma_envelopes_full(replies: Seq<Option<OutboundEnvelopeView>>)
    requires
        forall|i: int| 0 <= i < replies.len() ==> replies[i] is Some,
    ensures
        envelopes(replies).len() == replies.len(),
        forall|i: int| 0 <= i < replies.len() ==> envelopes(replies)[i] == replies[i]->Some_0,
    decreases replies.len(),
{
    if replies.len() > 0 {
        lemma_envelopes_full(replies.drop_last());
    }
}

/// Where no entry holds an envelope, none comes out.
proof fn lemma_envelopes_none(replies: Seq<Option<OutboundEnvelopeView>>)
    requires
        forall|i: int| 0 <= i < replies.len() ==> replies[i] is None,
    ensures
        envelopes(replies) == Seq::<OutboundEnvelopeView>::empty(),
    decreases replies.len(),
{
    if replies.len() > 0 {
        lemma_envelopes_none(replies.drop_last());
    }
}

/// Never more envelopes come out than there are entries.
proof fn lemma_envelopes_bounded(replies: Seq<Option<OutboundEnvelopeView>>)
    ensures
        envelopes(replies).len() <= replies.len(),
    decreases replies.len(),
{
    if replies.len() > 0 {
        lemma_envelopes_bounded(replies.drop_last());
    }
}

/// In one round at most one message per plugin goes out: a round over N
/// plugins results in at most N envelopes, whatever the slots hold.
pub proof fn law_one_reply_per_plugin(
    plugins: Seq<PluginHandleView>,
    blacklist: Set<Seq<char>>,
    source: Option<Seq<char>>,
    slots: Seq<SlotView>,
)
    ensures
        round_replies(plugins, blacklist, source, slots).len() == plugins.len(),
        envelopes(round_replies(plugins, blacklist, source, slots)).len() <= plugins.len(),
{
    lemma_envelopes_bounded(round_replies(plugins, blacklist, source, slots));
}

/// In a round in which each of the N plugins is handed the message and
/// replies, no plugin is at fault and exactly N envelopes result, the i-th
/// tagged with the name of the i-th plugin and carrying its reply.
pub proof fn law_fan_out_complete(
    plugins: Seq<PluginHandleView>,
    blacklist: Set<Seq<char>>,
    source: Option<Seq<char>>,
    slots: Seq<SlotView>,
)
    requires
        forall|i: int|
            0 <= i < plugins.len() ==> (#[trigger] plugins[i]).receives(blacklist, source),
        forall|i: int|
            0 <= i < plugins.len() ==> (#[trigger] slot_at(slots, i)) is Reply && slot_at(
                slots,
                i,
            )->Reply_0 is Some,
    ensures
        sound(plugins, blacklist, source, slots),
        envelopes(round_replies(plugins, blacklist, source, slots)).len() == plugins.len(),
        forall|i: int|
            0 <= i < plugins.len() ==> envelopes(
                round_replies(plugins, blacklist, source, slots),
            )[i] == (OutboundEnvelopeView {
                origin: OriginView::Plugin(plugins[i].name),
                message: slot_at(slots, i)->Reply_0->Some_0,
            }),
{
    let replies = round_replies(plugins, blacklist, source, slots);
    assert forall|i: int| 0 <= i < replies.len() implies replies[i] is Some by {
        assert(plugins[i].receives(blacklist, source));
        assert(slot_at(slots, i) is Reply);
    }
    lemma_envelopes_full(replies);
    assert forall|i: int| 0 <= i < plugins.len() implies fault_at(
        plugins,
        blacklist,
        source,
        slots,
        i,
    ) is None by {
        assert(slot_at(slots, i) is Reply);
    }
    assert forall|i: int| 0 <= i < plugins.len() implies envelopes(replies)[i] == (
    OutboundEnvelopeView {
        origin: OriginView::Plugin(plugins[i].name),
        message: slot_at(slots, i)->Reply_0->Some_0,
    }) by {
        assert(plugins[i].receives(blacklist, source));
        assert(slot_at(slots, i) is Reply);
        assert(replies[i] == reply_at(plugins, blacklist, source, slots, i));
    }
}

/// One inbound message of a run of the engine: its source, and what the
/// round on it delivered.
pub struct Round {
    pub source: Option<Seq<char>>,
    pub slots: Seq<SlotView>,
}

/// Every plugin that is handed the message of `round` returns without a
/// reply.
pub open spec fn silent(plugins: Seq<PluginHandleView>, blacklist: Set<Seq<char>>, round: Round)
    -> bool {
    forall|i: int|
        0 <= i < plugins.len() && (#[trigger] plugins[i]).receives(blacklist, round.source)
            ==> slot_at(round.slots, i) == SlotView::Reply(None)
}

/// All the envelopes that the rounds of `rounds` hand to the broadcaster, in
/// order.
pub open spec fn traffic_of(
    plugins: Seq<PluginHandleView>,
    blacklist: Set<Seq<char>>,
    rounds: Seq<Round>,
) -> Seq<OutboundEnvelopeView>
    decreases rounds.len(),
{
    if rounds.len() == 0 {
        Seq::empty()
    } else {
        traffic_of(plugins, blacklist, rounds.drop_last()) + envelopes(
            round_replies(plugins, blacklist, rounds.last().source, rounds.last().slots),
        )
    }
}

/// Plugins that never reply cause no outbound traffic, whatever the inbound
/// messages are and however many: no round is at fault and no envelope
/// results.
pub proof fn law_silent_plugins_send_nothing(
    plugins: Seq<PluginHandleView>,
    blacklist: Set<Seq<char>>,
    rounds: Seq<Round>,
)
    requires
        forall|r: int| 0 <= r < rounds.len() ==> silent(plugins, blacklist, #[trigger] rounds[r]),
    ensures
        traffic_of(plugins, blacklist, rounds) == Seq::<OutboundEnvelopeView>::empty(),
        forall|r: int|
            0 <= r < rounds.len() ==> sound(
                plugins,
                blacklist,
                (#[trigger] rounds[r]).source,
                rounds[r].slots,
            ),
    decreases rounds.len(),
{
    if rounds.len() > 0 {
        let last = rounds.last();
        assert(silent(plugins, blacklist, rounds[rounds.len() - 1]));
        assert forall|r: int| 0 <= r < rounds.drop_last().len() implies silent(
            plugins,
            blacklist,
            #[trigger] rounds.drop_last()[r],
        ) by {
            assert(rounds.drop_last()[r] == rounds[r]);
        }
        law_silent_plugins_send_nothing(plugins, blacklist, rounds.drop_last());
        let replies = round_replies(plugins, blacklist, last.source, last.slots);
        assert forall|i: int| 0 <= i < replies.len() implies replies[i] is None by {
            if plugins[i].receives(blacklist, last.source) {
                assert(slot_at(last.slots, i) == SlotView::Reply(None));
            }
        }
        lemma_envelopes_none(replies);
    }
    assert forall|r: int| 0 <= r < rounds.len() implies sound(
        plugins,
        blacklist,
        (#[trigger] rounds[r]).source,
        rounds[r].slots,
    ) by {
        assert(silent(plugins, blacklist, rounds[r]));
        assert forall|i: int| 0 <= i < plugins.len() implies fault_at(
            plugins,
            blacklist,
            rounds[r].source,
            rounds[r].slots,
            i,
        ) is None by {
            if plugins[i].receives(blacklist, rounds[r].source) {
                assert(slot_at(rounds[r].slots, i) == SlotView::Reply(None));
            }
        }
    }
}

/// The supervisor publishes exactly what a background task emits: a task
/// that never emits never causes outbound traffic.
pub proof fn law_only_emissions_publish(handle: PluginHandleView, event: TaskEventView)
    ensures
        supervision_of(handle, event) is Publish <==> event is Emitted,
{
}

/// A failed handshake stays failed and sends nothing more.
pub proof fn law_failure_is_final(config: HandshakeView, events: Seq<EventView>)
    ensures
        run_of(config, HandshakeState::Failed, events) == HandshakeState::Failed,
        sends_of(config, HandshakeState::Failed, events) == Seq::<ChatMessageView>::empty(),
    decreases events.len(),
{
    if events.len() > 0 {
        law_failure_is_final(config, events.drop_first());
    }
}

/// A handshake that is done stays done and sends nothing more.
pub proof fn law_done_is_final(config: HandshakeView, events: Seq<EventView>)
    ensures
        run_of(config, HandshakeState::HandshakeDone, events) == HandshakeState::HandshakeDone,
        sends_of(config, HandshakeState::HandshakeDone, events) == Seq::<ChatMessageView>::empty(),
    decreases events.len(),
{
    if events.len() > 0 {
        law_done_is_final(config, events.drop_first());
    }
}

/// Running through `first` and then `second` is running through both.
proof fn lemma_run_concat(
    config: HandshakeView,
    state: HandshakeState,
    first: Seq<EventView>,
    second: Seq<EventView>,
)
    ensures
        run_of(config, state, first + second) == run_of(
            config,
            run_of(config, state, first),
            second,
        ),
    decreases first.len(),
{
    if first.len() == 0 {
        assert(first + second =~= second);
    } else {
        assert((first + second)[0] == first[0]);
        assert((first + second).drop_first() =~= first.drop_first() + second);
        lemma_run_concat(
            config,
            step_of(config, state, first[0]).next,
            first.drop_first(),
            second,
        );
    }
}

/// While no acknowledgment arrives, the handshake still waits for it, or has
/// failed.
proof fn lemma_waits_for_ack(config: HandshakeView, events: Seq<EventView>)
    requires
        forall|i: int|
            0 <= i < events.len() ==> !(events[i] is Inbound && acknowledges(
                events[i]->Inbound_0,
            )),
    ensures
        run_of(config, HandshakeState::CapRequested, events) == HandshakeState::CapRequested
            || run_of(config, HandshakeState::CapRequested, events) == HandshakeState::Failed,
    decreases events.len(),
{
    if events.len() > 0 {
        let next = step_of(config, HandshakeState::CapRequested, events[0]).next;
        assert(!(events[0] is Inbound && acknowledges(events[0]->Inbound_0)));
        if next == HandshakeState::Failed {
            law_failure_is_final(config, events.drop_first());
        } else {
            assert(next == HandshakeState::CapRequested);
            assert forall|i: int| 0 <= i < events.drop_first().len() implies !(
            events.drop_first()[i] is Inbound && acknowledges(
                events.drop_first()[i]->Inbound_0,
            )) by {
                assert(events.drop_first()[i] == events[i + 1]);
            }
            lemma_waits_for_ack(config, events.drop_first());
        }
    }
}

/// If the wait for the capability's acknowledgment runs out before any
/// acknowledgment arrived, the handshake has failed, and whatever comes
/// later it never reaches the state in which dispatch begins.
pub proof fn law_ack_timeout_fails(
    config: HandshakeView,
    before: Seq<EventView>,
    later: Seq<EventView>,
)
    requires
        forall|i: int|
            0 <= i < before.len() ==> !(before[i] is Inbound && acknowledges(
                before[i]->Inbound_0,
            )),
    ensures
        run_of(config, HandshakeState::CapRequested, before + seq![EventView::Timeout])
            == HandshakeState::Failed,
        run_of(config, HandshakeState::CapRequested, before + seq![EventView::Timeout] + later)
            == HandshakeState::Failed,
        run_of(config, HandshakeState::CapRequested, before + seq![EventView::Timeout] + later)
            != HandshakeState::HandshakeDone,
{
    let timeout = seq![EventView::Timeout];
    lemma_waits_for_ack(config, before);
    lemma_run_concat(config, HandshakeState::CapRequested, before, timeout);
    let reached = run_of(config, HandshakeState::CapRequested, before);
    assert(timeout.drop_first() =~= Seq::<EventView>::empty());
    assert(run_of(config, reached, timeout) == run_of(
        config,
        step_of(config, reached, timeout[0]).next,
        timeout.drop_first(),
    ));
    assert(run_of(config, reached, timeout) == HandshakeState::Failed);
    lemma_run_concat(config, HandshakeState::CapRequested, before + timeout, later);
    law_failure_is_final(config, later);
}

/// Every wait of the handshake is bounded: a timeout in a state that waits
/// fails the handshake.
pub proof fn law_waits_are_bounded(config: HandshakeView, state: HandshakeState)
    requires
        crate::handshake::waits(state),
    ensures
        step_of(config, state, EventView::Timeout).next == HandshakeState::Failed,
{
}

} // verus!
