//! The outbound broadcaster: who is told of a message that is about to be
//! sent, and what is sent.

use vstd::prelude::*;
use vstd::string::*;
use crate::error::{Error, ErrorView};
use crate::message::{ChatMessage, Origin, OutboundEnvelope};
use crate::plugin::PluginHandle;

verus! {

/// What the broadcaster does with one envelope.
#[derive(Debug, PartialEq, Eq)]
pub struct Broadcast {
    /// For each plugin, in order, whether its outbound hook is invoked.
    pub notify: Vec<bool>,
    /// The one copy that goes to the network.
    pub wire: ChatMessage,
}

/// Whether the plugin behind `handle` is told of a message of `origin`. The
/// origin alone decides, never the message's content.
pub fn is_observer(handle: &PluginHandle, origin: &Origin) -> (told: bool)
    ensures
        told == handle@.observes(origin@),
{
    match origin {
        Origin::Runtime => true,
        Origin::Plugin(author) => !(handle.name == *author),
    }
}

/// Decides, plugin by plugin, who is told of a message of `origin`: every
/// plugin whose name differs from the origin.
pub fn observers(plugins: &Vec<PluginHandle>, origin: &Origin) -> (notify: Vec<bool>)
    ensures
        notify.len() == plugins.len(),
        forall|i: int| 0 <= i < plugins.len() ==> notify[i] == plugins[i]@.observes(origin@),
{
    let mut notify: Vec<bool> = Vec::with_capacity(plugins.len());
    let mut i: usize = 0;
    while i < plugins.len()
        invariant
            i <= plugins.len(),
            notify.len() == i,
            forall|j: int| 0 <= j < i ==> notify[j] == plugins[j]@.observes(origin@),
        decreases plugins.len() - i,
    {
        notify.push(is_observer(&plugins[i], origin));
        i += 1;
    }
    notify
}

/// The line that is logged when the outbound hook of the plugin `name` fails
/// with `error`.
pub open spec fn observation_report(name: Seq<char>, error: ErrorView) -> Seq<char> {
    "out_message error from plugin "@ + name + ": "@ + error.message()
}

/// Handles the failure of an outbound hook. Observation is best effort: the
/// failure is reported for the log, under the plugin's name and the hook's,
/// and goes no further; the message is sent all the same.
pub fn observation_failed(handle: &PluginHandle, error: &Error) -> (report: String)
    ensures
        report@ == observation_report(handle@.name, error@),
{
    String::from_str("out_message error from plugin ").concat(handle.name.as_str()).concat(
        ": ",
    ).concat(error.message().as_str())
}

/// Plans the trip of one envelope through the broadcaster: the plugins to
/// tell, and the message to send once.
pub fn broadcast(plugins: &Vec<PluginHandle>, envelope: &OutboundEnvelope) -> (plan: Broadcast)
    ensures
        plan.notify.len() == plugins.len(),
        forall|i: int|
            0 <= i < plugins.len() ==> plan.notify[i] == plugins[i]@.observes(envelope@.origin),
        plan.wire@ == envelope@.message,
{
    Broadcast { notify: observers(plugins, &envelope.origin), wire: envelope.message.clone() }
}

} // verus!
