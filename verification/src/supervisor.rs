//! Supervision of the plugins' long-running background tasks.

use vstd::prelude::*;
use vstd::string::*;
use crate::error::{Error, ErrorView};
use crate::message::{
    ChatMessage, ChatMessageView, Origin, OriginView, OutboundEnvelope, OutboundEnvelopeView,
};
use crate::plugin::{PluginHandle, PluginHandleView};

verus! {

/// What a plugin's background task did.
#[derive(Debug, PartialEq, Eq)]
pub enum TaskEvent {
    /// It pushed a message into its outbound sink.
    Emitted(ChatMessage),
    /// It returned normally.
    Returned,
    /// It returned an error.
    Failed(Error),
}

/// Mathematical model of a [`TaskEvent`].
pub enum TaskEventView {
    Emitted(ChatMessageView),
    Returned,
    Failed(ErrorView),
}

impl View for TaskEvent {
    type V = TaskEventView;

    open spec fn view(&self) -> TaskEventView {
        match self {
            TaskEvent::Emitted(message) => TaskEventView::Emitted(message@),
            TaskEvent::Returned => TaskEventView::Returned,
            TaskEvent::Failed(error) => TaskEventView::Failed(error@),
        }
    }
}

/// What the supervisor does about a task event.
#[derive(Debug, PartialEq, Eq)]
pub enum Supervision {
    /// Hand the envelope to the outbound broadcaster.
    Publish(OutboundEnvelope),
    /// The task is over; the runtime goes on without it.
    Retire,
    /// Stop the whole runtime with this error.
    Abort(Error),
}

/// Mathematical model of a [`Supervision`].
pub enum SupervisionView {
    Publish(OutboundEnvelopeView),
    Retire,
    Abort(ErrorView),
}

impl View for Supervision {
    type V = SupervisionView;

    open spec fn view(&self) -> SupervisionView {
        match self {
            Supervision::Publish(envelope) => SupervisionView::Publish(envelope@),
            Supervision::Retire => SupervisionView::Retire,
            Supervision::Abort(error) => SupervisionView::Abort(error@),
        }
    }
}

/// The text with which a failure of the background task of `name` is wrapped.
pub open spec fn run_context(name: Seq<char>) -> Seq<char> {
    "Plugin "@ + name + ".run() failed"@
}

/// The supervisor's rule. A message that a task emits is tagged with the
/// plugin's name and published; a normal return retires the task and leaves
/// the runtime running; a failure stops the runtime.
pub open spec fn supervision_of(handle: PluginHandleView, event: TaskEventView) -> SupervisionView {
    match event {
        TaskEventView::Emitted(message) => SupervisionView::Publish(
            OutboundEnvelopeView { origin: OriginView::Plugin(handle.name), message },
        ),
        TaskEventView::Returned => SupervisionView::Retire,
        TaskEventView::Failed(error) => SupervisionView::Abort(
            error.within(run_context(handle.name)),
        ),
    }
}

/// Tags a message that the task of `handle` emitted with the plugin's name.
pub fn relay(handle: &PluginHandle, message: ChatMessage) -> (envelope: OutboundEnvelope)
    ensures
        envelope@ == (OutboundEnvelopeView {
            origin: OriginView::Plugin(handle@.name),
            message: message@,
        }),
{
    OutboundEnvelope { origin: Origin::Plugin(handle.name.clone()), message }
}

/// Applies the supervisor's rule to one event of the task of `handle`.
pub fn supervise(handle: &PluginHandle, event: TaskEvent) -> (verdict: Supervision)
    ensures
        verdict@ == supervision_of(handle@, event@),
{
    match event {
        TaskEvent::Emitted(message) => Supervision::Publish(relay(handle, message)),
        TaskEvent::Returned => Supervision::Retire,
        TaskEvent::Failed(error) => {
            let ctx = String::from_str("Plugin ").concat(handle.name.as_str()).concat(
                ".run() failed",
            );
            Supervision::Abort(error.within(ctx))
        },
    }
}

} // verus!
