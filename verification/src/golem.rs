//! The runtime: the plugin list, the blacklist and the handshake, composed.

use vstd::prelude::*;
use vstd::string::*;
use crate::broadcast::{broadcast, Broadcast};
use crate::dispatch::{
    collect_round, entries_of, envelopes, envelopes_of, fault_at, first_fault, outbound_of,
    recipients, round_replies, slots_of, sound, Slot,
};
use crate::error::{Error, ErrorView};
use crate::handshake::{Handshake, HandshakeState, HandshakeView};
use crate::message::{ChatMessage, OutboundEnvelope};
use crate::plugin::{handles_of, Blacklist, PluginHandle, PluginHandleView};
use crate::supervisor::{supervise, supervision_of, Supervision, TaskEvent};

verus! {

/// The plugins that can be activated by name.
#[derive(Clone, Copy, Debug, PartialEq, Eq, Structural)]
pub enum PluginKind {
    Crypto,
    Ctcp,
    Echo,
    Joke,
    RepublicanCalendar,
    Twitch,
    Url,
}

/// The plugin that a configured name activates, if any.
pub open spec fn kind_of(name: Seq<char>) -> Option<PluginKind> {
    if name == "crypto"@ {
        Some(PluginKind::Crypto)
    } else if name == "ctcp"@ {
        Some(PluginKind::Ctcp)
    } else if name == "echo"@ {
        Some(PluginKind::Echo)
    } else if name == "joke"@ {
        Some(PluginKind::Joke)
    } else if name == "republican_calendar"@ {
        Some(PluginKind::RepublicanCalendar)
    } else if name == "twitch"@ {
        Some(PluginKind::Twitch)
    } else if name == "url"@ {
        Some(PluginKind::Url)
    } else {
        None
    }
}

/// The error raised for a configured name that activates nothing.
pub open spec fn unknown_plugin(name: Seq<char>) -> ErrorView {
    ErrorView::Synthetic("Unknown plugin name: "@ + name)
}

impl PluginKind {
    /// The name under which the plugin runs.
    pub open spec fn name(self) -> Seq<char> {
        match self {
            PluginKind::Crypto => "crypto"@,
            PluginKind::Ctcp => "ctcp"@,
            PluginKind::Echo => "echo"@,
            PluginKind::Joke => "joke"@,
            PluginKind::RepublicanCalendar => "date"@,
            PluginKind::Twitch => "twitch"@,
            PluginKind::Url => "url"@,
        }
    }

    /// Whether the plugin asks to see messages from blacklisted sources.
    /// Only the plugin that watches links does.
    pub open spec fn observes_blacklisted(self) -> bool {
        self == PluginKind::Url
    }

    /// The engine's handle on a plugin of this kind.
    pub fn handle(self) -> (handle: PluginHandle)
        ensures
            handle@ == (PluginHandleView {
                name: self.name(),
                observes_blacklisted: self.observes_blacklisted(),
            }),
    {
        match self {
            PluginKind::Crypto => PluginHandle {
                name: String::from_str("crypto"),
                observes_blacklisted: false,
            },
            PluginKind::Ctcp => PluginHandle {
                name: String::from_str("ctcp"),
                observes_blacklisted: false,
            },
            PluginKind::Echo => PluginHandle {
                name: String::from_str("echo"),
                observes_blacklisted: false,
            },
            PluginKind::Joke => PluginHandle {
                name: String::from_str("joke"),
                observes_blacklisted: false,
            },
            PluginKind::RepublicanCalendar => PluginHandle {
                name: String::from_str("date"),
                observes_blacklisted: false,
            },
            PluginKind::Twitch => PluginHandle {
                name: String::from_str("twitch"),
                observes_blacklisted: false,
            },
            PluginKind::Url => PluginHandle {
                name: String::from_str("url"),
                observes_blacklisted: true,
            },
        }
    }
}

/// Resolves one configured plugin name.
pub fn init_plugin(name: &String) -> (kind: Result<PluginKind, Error>)
    ensures
        match kind {
            Ok(found) => kind_of(name@) == Some(found),
            Err(error) => kind_of(name@) is None && error@ == unknown_plugin(name@),
        },
{
    if *name == String::from_str("crypto") {
        Ok(PluginKind::Crypto)
    } else if *name == String::from_str("ctcp") {
        Ok(PluginKind::Ctcp)
    } else if *name == String::from_str("echo") {
        Ok(PluginKind::Echo)
    } else if *name == String::from_str("joke") {
        Ok(PluginKind::Joke)
    } else if *name == String::from_str("republican_calendar") {
        Ok(PluginKind::RepublicanCalendar)
    } else if *name == String::from_str("twitch") {
        Ok(PluginKind::Twitch)
    } else if *name == String::from_str("url") {
        Ok(PluginKind::Url)
    } else {
        Err(Error::Synthetic(String::from_str("Unknown plugin name: ").concat(name.as_str())))
    }
}

/// `k` is the first configured name that activates nothing.
pub open spec fn first_unknown(names: Seq<String>, k: int) -> bool {
    &&& 0 <= k < names.len()
    &&& kind_of(names[k]@) is None
    &&& forall|j: int| 0 <= j < k ==> kind_of(#[trigger] names[j]@) is Some
}

/// Resolves the configured plugin names, in order. One unknown name fails
/// the whole start-up, with the error of the first such name.
pub fn resolve_plugins(names: &Vec<String>) -> (kinds: Result<Vec<PluginKind>, Error>)
    ensures
        match kinds {
            Ok(found) => found.len() == names.len() && forall|i: int|
                0 <= i < names.len() ==> kind_of(names[i]@) == Some(found[i]),
            Err(error) => exists|k: int|
                first_unknown(names@, k) && error@ == unknown_plugin(names[k]@),
        },
{
    let mut found: Vec<PluginKind> = Vec::with_capacity(names.len());
    let mut i: usize = 0;
    while i < names.len()
        invariant
            i <= names.len(),
            found.len() == i,
            forall|j: int| 0 <= j < i ==> kind_of(#[trigger] names[j]@) == Some(found[j]),
        decreases names.len() - i,
    {
        match init_plugin(&names[i]) {
            Ok(kind) => {
                found.push(kind);
            },
            Err(error) => {
                assert(first_unknown(names@, i as int));
                return Err(error);
            },
        }
        i += 1;
    }
    Ok(found)
}

/// A plugin that finished its initialisation, with the routes it exposes
/// over HTTP, if any.
#[derive(Debug, PartialEq, Eq)]
pub struct Initialised {
    pub plugin: PluginHandle,
    pub router: Option<Vec<String>>,
}

/// The paths of a route table.
pub open spec fn paths_of(routes: Seq<String>) -> Seq<Seq<char>> {
    Seq::new(routes.len(), |i: int| routes[i]@)
}

/// The paths of an optional route table.
pub open spec fn table_of(router: Option<Vec<String>>) -> Option<Seq<Seq<char>>> {
    match router {
        Some(routes) => Some(paths_of(routes@)),
        None => None,
    }
}

/// The one aggregate route table of the plugins `inits`: none where no
/// plugin exposes routes, and otherwise the routes of each plugin that does,
/// in the order of the plugins.
pub open spec fn merged_routes(inits: Seq<Initialised>) -> Option<Seq<Seq<char>>>
    decreases inits.len(),
{
    if inits.len() == 0 {
        None
    } else {
        let earlier = merged_routes(inits.drop_last());
        match (earlier, table_of(inits.last().router)) {
            (_, None) => earlier,
            (None, Some(routes)) => Some(routes),
            (Some(table), Some(routes)) => Some(table + routes),
        }
    }
}

/// The route at place `k` is in conflict: an earlier route has its path.
pub open spec fn conflicts_at(paths: Seq<Seq<char>>, k: int) -> bool {
    0 <= k < paths.len() && exists|j: int| 0 <= j < k && paths[j] == paths[k]
}

/// Whether an earlier route than the one at place `k` has the path `path`.
fn taken_before(routes: &Vec<String>, k: usize, path: &String) -> (taken: bool)
    requires
        k <= routes.len(),
    ensures
        taken == exists|j: int| 0 <= j < k && paths_of(routes@)[j] == path@,
{
    let mut j: usize = 0;
    while j < k
        invariant
            j <= k <= routes.len(),
            forall|i: int| 0 <= i < j ==> paths_of(routes@)[i] != path@,
        decreases k - j,
    {
        if routes[j] == *path {
            assert(paths_of(routes@)[j as int] == path@);
            return true;
        }
        j += 1;
    }
    false
}

/// Finds the first route of an aggregate table whose path an earlier route
/// has already: merging never lets a later route override an earlier one,
/// so such a table is a configuration error, to be refused at start-up.
pub fn first_conflict(routes: &Vec<String>) -> (found: Option<usize>)
    ensures
        match found {
            Some(k) => conflicts_at(paths_of(routes@), k as int) && forall|i: int|
                0 <= i < k ==> !conflicts_at(paths_of(routes@), i),
            None => forall|i: int| 0 <= i < routes.len() ==> !conflicts_at(paths_of(routes@), i),
        },
{
    let mut k: usize = 0;
    while k < routes.len()
        invariant
            k <= routes.len(),
            forall|i: int| 0 <= i < k ==> !conflicts_at(paths_of(routes@), i),
        decreases routes.len() - k,
    {
        if taken_before(routes, k, &routes[k]) {
            return Some(k);
        }
        k += 1;
    }
    None
}

impl Initialised {
    /// A plugin that exposes no routes.
    pub fn from(plugin: PluginHandle) -> (init: Initialised)
        ensures
            init.plugin == plugin,
            init.router is None,
    {
        Initialised { plugin, router: None }
    }
}

/// What the runtime is configured with.
#[derive(Debug, PartialEq, Eq)]
pub struct GolemConfig {
    pub blacklisted_users: Vec<String>,
    pub plugins: Vec<String>,
    pub sasl_password: Option<String>,
    pub server_bind_address: String,
    pub server_bind_port: u16,
}

/// The runtime.
#[derive(Debug, PartialEq, Eq)]
pub struct Golem {
    pub handshake: Handshake,
    pub blacklist: Blacklist,
    pub plugins: Vec<PluginHandle>,
    /// The aggregate route table to serve, if any plugin exposes routes.
    pub router: Option<Vec<String>>,
    /// The address and the port on which the route table is served.
    pub server_bind_address: String,
    pub server_bind_port: u16,
}

/// What the runtime does once the handshake has come to `state`.
#[derive(Clone, Copy, Debug, PartialEq, Eq, Structural)]
pub enum Phase {
    /// The handshake is still under way.
    Authenticating,
    /// The handshake is done: dispatch, supervision and the server start.
    Dispatching,
}

/// The error with which the runtime stops when the handshake failed.
pub open spec fn handshake_failure() -> ErrorView {
    ErrorView::Wrapped { source: "Handshake failed"@, ctx: "Problem while authenticating"@ }
}

/// The error with which the runtime stops when the inbound stream ends in
/// the phase `phase`.
pub open spec fn closed_stream(phase: Phase) -> ErrorView {
    match phase {
        Phase::Authenticating => ErrorView::Synthetic("Waited for message failed"@),
        Phase::Dispatching => ErrorView::Synthetic("IRC receiving stream exited"@),
    }
}

/// The text with which a failed dispatch round is wrapped.
pub open spec fn round_context() -> Seq<char> {
    "Plugin error !"@
}

/// The error with which the runtime stops for a plugin's fault in a round.
pub open spec fn round_failure(fault: Option<ErrorView>) -> Option<ErrorView> {
    match fault {
        Some(error) => Some(error.within(round_context())),
        None => None,
    }
}

impl Golem {
    /// Composes the runtime from its configuration, the nickname it runs
    /// under, and the plugins that were initialised, in order.
    pub fn new_from_config(nickname: String, config: GolemConfig, inits: Vec<Initialised>) -> (golem:
        Golem)
        ensures
            golem.handshake@ == (HandshakeView {
                nickname: nickname@,
                password: crate::message::text_of(config.sasl_password),
                timeout_secs: crate::handshake::DEFAULT_TIMEOUT_SECS,
            }),
            golem.blacklist.names == config.blacklisted_users,
            golem.plugins.len() == inits.len(),
            forall|i: int| 0 <= i < inits.len() ==> golem.plugins[i]@ == inits[i].plugin@,
            table_of(golem.router) == merged_routes(inits@),
            golem.server_bind_address == config.server_bind_address,
            golem.server_bind_port == config.server_bind_port,
    {
        let mut plugins: Vec<PluginHandle> = Vec::with_capacity(inits.len());
        let mut router: Option<Vec<String>> = None;
        let mut i: usize = 0;
        proof {
            assert(inits@.take(0) =~= Seq::empty());
        }
        while i < inits.len()
            invariant
                i <= inits.len(),
                plugins.len() == i,
                forall|j: int| 0 <= j < i ==> plugins[j]@ == inits[j].plugin@,
                table_of(router) == merged_routes(inits@.take(i as int)),
            decreases inits.len() - i,
        {
            proof {
                assert(inits@.take(i + 1).drop_last() =~= inits@.take(i as int));
                assert(inits@.take(i + 1).last() == inits[i as int]);
            }
            match &inits[i].router {
                Some(routes) => {
                    let mut table: Vec<String> = match router {
                        Some(earlier) => earlier,
                        None => Vec::new(),
                    };
                    let ghost base = paths_of(table@);
                    let mut k: usize = 0;
                    while k < routes.len()
                        invariant
                            k <= routes.len(),
                            paths_of(table@) == base + paths_of(routes@).take(k as int),
                        decreases routes.len() - k,
                    {
                        let ghost earlier = paths_of(table@);
                        let path = routes[k].clone();
                        table.push(path);
                        proof {
                            assert(paths_of(table@) =~= earlier.push(path@));
                            assert(paths_of(routes@).take(k + 1) =~= paths_of(routes@).take(
                                k as int,
                            ).push(routes[k as int]@));
                            assert(paths_of(table@) =~= base + paths_of(routes@).take(k + 1));
                        }
                        k += 1;
                    }
                    proof {
                        assert(paths_of(routes@).take(routes.len() as int) =~= paths_of(routes@));
                        assert(Seq::<Seq<char>>::empty() + paths_of(routes@) =~= paths_of(
                            routes@,
                        ));
                    }
                    router = Some(table);
                },
                None => {},
            }
            plugins.push(inits[i].plugin.clone());
            i += 1;
        }
        proof {
            assert(inits@.take(inits.len() as int) =~= inits@);
        }
        Golem {
            handshake: Handshake::new(nickname, config.sasl_password),
            blacklist: Blacklist::new(config.blacklisted_users),
            plugins,
            router,
            server_bind_address: config.server_bind_address,
            server_bind_port: config.server_bind_port,
        }
    }

    /// Decides how the runtime goes on from the handshake's `state`. A
    /// failed handshake stops it: there is no fallback to running
    /// unauthenticated. Dispatch begins only when the handshake is done.
    pub fn run(&self, state: HandshakeState) -> (phase: Result<Phase, Error>)
        ensures
            match phase {
                Ok(Phase::Dispatching) => state == HandshakeState::HandshakeDone,
                Ok(Phase::Authenticating) => state != HandshakeState::HandshakeDone && state
                    != HandshakeState::Failed,
                Err(error) => state == HandshakeState::Failed && error@ == handshake_failure(),
            },
    {
        match state {
            HandshakeState::HandshakeDone => Ok(Phase::Dispatching),
            HandshakeState::Failed => Err(
                Error::Wrapped {
                    source: String::from_str("Handshake failed"),
                    ctx: String::from_str("Problem while authenticating"),
                },
            ),
            _ => Ok(Phase::Authenticating),
        }
    }

    /// Handles the end of the inbound stream. The runtime never goes on
    /// without it: in either phase the end is an error, and stops it.
    pub fn inbound_closed(&self, phase: Phase) -> (error: Error)
        ensures
            error@ == closed_stream(phase),
    {
        match phase {
            Phase::Authenticating => Error::Synthetic(
                String::from_str("Waited for message failed"),
            ),
            Phase::Dispatching => Error::Synthetic(
                String::from_str("IRC receiving stream exited"),
            ),
        }
    }

    /// Collects one dispatch round over the runtime's plugins.
    pub fn plugins_in_messages(&self, message: &ChatMessage, slots: &Vec<Slot>) -> (round: Result<
        Vec<Option<OutboundEnvelope>>,
        Error,
    >)
        ensures
            match round {
                Ok(replies) => {
                    &&& sound(
                        handles_of(self.plugins@),
                        self.blacklist@,
                        message@.source,
                        slots_of(slots@),
                    )
                    &&& entries_of(replies@) == round_replies(
                        handles_of(self.plugins@),
                        self.blacklist@,
                        message@.source,
                        slots_of(slots@),
                    )
                },
                Err(error) => exists|k: int|
                    first_fault(
                        handles_of(self.plugins@),
                        self.blacklist@,
                        message@.source,
                        slots_of(slots@),
                        k,
                    ) && fault_at(
                        handles_of(self.plugins@),
                        self.blacklist@,
                        message@.source,
                        slots_of(slots@),
                        k,
                    ) == Some(error@),
            },
    {
        collect_round(&self.plugins, &self.blacklist, message, slots)
    }

    /// Handles one inbound message whose round delivered `slots`: the
    /// envelopes to pass to the outbound broadcaster, in plugin order, or
    /// the round's fault wrapped once more.
    pub fn recv_irc_messages(&self, message: &ChatMessage, slots: &Vec<Slot>) -> (outcome: Result<
        Vec<OutboundEnvelope>,
        Error,
    >)
        ensures
            match outcome {
                Ok(out) => {
                    &&& sound(
                        handles_of(self.plugins@),
                        self.blacklist@,
                        message@.source,
                        slots_of(slots@),
                    )
                    &&& envelopes_of(out@) == envelopes(
                        round_replies(
                            handles_of(self.plugins@),
                            self.blacklist@,
                            message@.source,
                            slots_of(slots@),
                        ),
                    )
                },
                Err(error) => exists|k: int|
                    first_fault(
                        handles_of(self.plugins@),
                        self.blacklist@,
                        message@.source,
                        slots_of(slots@),
                        k,
                    ) && round_failure(
                        fault_at(
                            handles_of(self.plugins@),
                            self.blacklist@,
                            message@.source,
                            slots_of(slots@),
                            k,
                        ),
                    ) == Some(error@),
            },
    {
        match self.plugins_in_messages(message, slots) {
            Ok(replies) => Ok(outbound_of(&replies)),
            Err(error) => Err(error.within(String::from_str("Plugin error !"))),
        }
    }

    /// Decides which plugins are handed an inbound message.
    pub fn recipients(&self, message: &ChatMessage) -> (invoke: Vec<bool>)
        ensures
            invoke.len() == self.plugins.len(),
            forall|i: int|
                0 <= i < self.plugins.len() ==> invoke[i] == self.plugins[i]@.receives(
                    self.blacklist@,
                    message@.source,
                ),
    {
        recipients(&self.plugins, &self.blacklist, message)
    }

    /// Plans the trip of one envelope through the outbound broadcaster.
    pub fn outbound_message(&self, envelope: &OutboundEnvelope) -> (plan: Broadcast)
        ensures
            plan.notify.len() == self.plugins.len(),
            forall|i: int|
                0 <= i < self.plugins.len() ==> plan.notify[i] == self.plugins[i]@.observes(
                    envelope@.origin,
                ),
            plan.wire@ == envelope@.message,
    {
        broadcast(&self.plugins, envelope)
    }

    /// Applies the supervisor's rule to an event of the background task of
    /// plugin `plugin`; there is none for an index past the plugin list.
    pub fn run_plugins(&self, plugin: usize, event: TaskEvent) -> (verdict: Option<Supervision>)
        ensures
            verdict is Some == (plugin < self.plugins.len()),
            verdict is Some ==> verdict->Some_0@ == supervision_of(
                self.plugins[plugin as int]@,
                event@,
            ),
    {
        if plugin < self.plugins.len() {
            Some(supervise(&self.plugins[plugin], event))
        } else {
            None
        }
    }

    /// The route table to serve; without one the server has nothing to do
    /// and ends at once.
    pub fn run_server(&self) -> (routes: Option<&Vec<String>>)
        ensures
            routes is Some == self.router is Some,
            routes is Some ==> *routes->Some_0 == self.router->Some_0,
    {
        self.router.as_ref()
    }
}

} // verus!
