//! What the engine knows of a plugin, and the set of suppressed sources.

use vstd::prelude::*;
use vstd::string::*;

verus! {

/// The engine's handle on one plugin: its name and whether it asked to see
/// messages from blacklisted sources.
#[derive(Debug, PartialEq, Eq)]
pub struct PluginHandle {
    pub name: String,
    pub observes_blacklisted: bool,
}

/// Mathematical model of a [`PluginHandle`].
pub struct PluginHandleView {
    pub name: Seq<char>,
    pub observes_blacklisted: bool,
}

impl View for PluginHandle {
    type V = PluginHandleView;

    open spec fn view(&self) -> PluginHandleView {
        PluginHandleView { name: self.name@, observes_blacklisted: self.observes_blacklisted }
    }
}

impl Clone for PluginHandle {
    fn clone(&self) -> (copy: Self)
        ensures
            copy@ == self@,
    {
        PluginHandle { name: self.name.clone(), observes_blacklisted: self.observes_blacklisted }
    }
}

impl PluginHandle {
    /// A handle is well formed when its name is not empty.
    pub open spec fn wf(&self) -> bool {
        self.name@.len() > 0
    }

    /// Makes a handle; a plugin's name is never empty, so an empty name
    /// gives none.
    pub fn new(name: &str, observes_blacklisted: bool) -> (handle: Option<PluginHandle>)
        ensures
            handle is Some == (name@.len() > 0),
            handle is Some ==> handle->Some_0.wf() && handle->Some_0@ == (PluginHandleView {
                name: name@,
                observes_blacklisted,
            }),
    {
        if name.unicode_len() == 0 {
            None
        } else {
            Some(PluginHandle { name: String::from_str(name), observes_blacklisted })
        }
    }
}

/// The models of a list of handles, in order.
pub open spec fn handles_of(plugins: Seq<PluginHandle>) -> Seq<PluginHandleView> {
    Seq::new(plugins.len(), |i: int| plugins[i]@)
}

/// The source identities whose messages are suppressed.
#[derive(Debug, PartialEq, Eq)]
pub struct Blacklist {
    pub names: Vec<String>,
}

impl View for Blacklist {
    type V = Set<Seq<char>>;

    open spec fn view(&self) -> Set<Seq<char>> {
        Set::new(|name: Seq<char>| exists|i: int| 0 <= i < self.names.len() && self.names[i]@ == name)
    }
}

impl Blacklist {
    /// The blacklist made of the given names.
    pub fn new(names: Vec<String>) -> (list: Blacklist)
        ensures
            list.names == names,
    {
        Blacklist { names }
    }

    /// Whether `name` is blacklisted.
    pub fn contains(&self, name: &String) -> (found: bool)
        ensures
            found == self@.contains(name@),
    {
        let mut i: usize = 0;
        while i < self.names.len()
            invariant
                i <= self.names.len(),
                forall|j: int| 0 <= j < i ==> self.names[j]@ != name@,
            decreases self.names.len() - i,
        {
            if self.names[i] == *name {
                return true;
            }
            i += 1;
        }
        false
    }

    /// Whether a message from `source` is suppressed for plugins that did
    /// not ask for blacklisted sources.
    pub fn suppresses(&self, source: &Option<String>) -> (hit: bool)
        ensures
            hit == suppressed(self@, crate::message::text_of(*source)),
    {
        match source {
            Some(name) => self.contains(name),
            None => false,
        }
    }
}

/// A message from `source` is suppressed when it has a source and that
/// source is blacklisted.
pub open spec fn suppressed(blacklist: Set<Seq<char>>, source: Option<Seq<char>>) -> bool {
    source is Some && blacklist.contains(source->Some_0)
}

impl PluginHandleView {
    /// Whether the plugin is handed an inbound message from `source`.
    pub open spec fn receives(self, blacklist: Set<Seq<char>>, source: Option<Seq<char>>) -> bool {
        self.observes_blacklisted || !suppressed(blacklist, source)
    }

    /// Whether the plugin is told of an outbound message of `origin`: of
    /// every one but its own.
    pub open spec fn observes(self, origin: crate::message::OriginView) -> bool {
        origin != crate::message::OriginView::Plugin(self.name)
    }
}

} // verus!
