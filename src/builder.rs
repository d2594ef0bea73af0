use vstd::prelude::*;

use crate::error::{Received, StartupError};
use crate::process::{ProcessConfig, ProcessRef};
use crate::tag::{Tag, TagSource};

verus! {

/// The low-level spawn primitive that a combination of options resolves to.
#[derive(Clone, Copy, Debug, PartialEq, Eq, Structural)]
pub enum SpawnCall {
    Spawn,
    SpawnConfig(ProcessConfig),
    SpawnNode(u64),
    SpawnNodeConfig(u64, ProcessConfig),
    SpawnLinkTag(Tag),
    SpawnLinkConfigTag(ProcessConfig, Tag),
}

/// The spawn primitive for a link tag, a configuration and a target node, or
/// `None` for the unsupported combination of a link with a remote node.
pub open spec fn spawn_call_of(
    link: Option<Tag>,
    config: Option<ProcessConfig>,
    node: Option<u64>,
) -> Option<SpawnCall> {
    match (link, config, node) {
        (Some(_), _, Some(_)) => None,
        (Some(t), Some(c), None) => Some(SpawnCall::SpawnLinkConfigTag(c, t)),
        (Some(t), None, None) => Some(SpawnCall::SpawnLinkTag(t)),
        (None, Some(c), Some(n)) => Some(SpawnCall::SpawnNodeConfig(n, c)),
        (None, None, Some(n)) => Some(SpawnCall::SpawnNode(n)),
        (None, Some(c), None) => Some(SpawnCall::SpawnConfig(c)),
        (None, None, None) => Some(SpawnCall::Spawn),
    }
}

/// Everything the runtime needs to spawn a unit and let it report back: the
/// spawn primitive, the name to register if any, the unit to reply to, the
/// handshake tag the reply carries, the argument for initialization, and how
/// long to wait for the reply (in milliseconds; `None` waits without bound).
#[derive(Debug)]
pub struct SpawnRequest<A> {
    pub call: SpawnCall,
    pub name: Option<String>,
    pub parent: ProcessRef,
    pub init_tag: Tag,
    pub arg: A,
    pub timeout_ms: Option<u64>,
}

/// Accumulates the link, configuration and placement options for spawning a
/// unit. Every option method consumes the builder and returns a new one.
#[derive(Debug)]
pub struct AbstractProcessBuilder<'a> {
    link: Option<Tag>,
    config: Option<&'a ProcessConfig>,
    node: Option<u64>,
}

/// Whether `r` is the request for spawning with `b`'s options, the given
/// name, parent, argument and bound: on the unsupported combination an error
/// and no tag taken; otherwise the resolved primitive and a handshake tag that
/// the source had not issued before and has issued now.
pub open spec fn requested<'a, A, E>(
    b: AbstractProcessBuilder<'a>,
    tags_before: TagSource,
    tags_after: TagSource,
    name: Option<String>,
    parent: ProcessRef,
    arg: A,
    timeout_ms: Option<u64>,
    r: Result<SpawnRequest<A>, StartupError<E>>,
) -> bool {
    match b.call_spec() {
        None => r == Err::<SpawnRequest<A>, StartupError<E>>(StartupError::LinkAcrossNodes)
            && tags_after == tags_before,
        Some(c) => r matches Ok(q) && q.call == c && q.name == name && q.parent == parent
            && q.arg == arg && q.timeout_ms == timeout_ms && !tags_before.issued(q.init_tag)
            && tags_after.issued(q.init_tag) && (forall|t: Tag|
            tags_before.issued(t) ==> tags_after.issued(t)),
    }
}

impl<'a> AbstractProcessBuilder<'a> {
    /// The tag the spawned unit will be linked with, if any.
    pub closed spec fn link_spec(&self) -> Option<Tag> {
        self.link
    }

    /// The configuration the unit will be spawned with, if any.
    pub closed spec fn config_spec(&self) -> Option<ProcessConfig> {
        match self.config {
            Some(c) => Some(*c),
            None => None,
        }
    }

    /// The node the unit will be spawned on, if not the local one.
    pub closed spec fn node_spec(&self) -> Option<u64> {
        self.node
    }

    /// The spawn primitive the options resolve to.
    pub open spec fn call_spec(&self) -> Option<SpawnCall> {
        spawn_call_of(self.link_spec(), self.config_spec(), self.node_spec())
    }

    pub fn new() -> (r: AbstractProcessBuilder<'a>)
        ensures
            r.link_spec() == None::<Tag>,
            r.config_spec() == None::<ProcessConfig>,
            r.node_spec() == None::<u64>,
    {
        AbstractProcessBuilder { link: None, config: None, node: None }
    }

    /// Links the unit to be spawned to the parent, with a fresh tag.
    pub fn link(self, tags: &mut TagSource) -> (r: AbstractProcessBuilder<'a>)
        requires
            old(tags).can_issue(),
        ensures
            r.link_spec() matches Some(t) && !old(tags).issued(t) && final(tags).issued(t),
            forall|t: Tag| old(tags).issued(t) ==> final(tags).issued(t),
            r.config_spec() == self.config_spec(),
            r.node_spec() == self.node_spec(),
    {
        let tag = tags.fresh();
        AbstractProcessBuilder { link: Some(tag), config: self.config, node: self.node }
    }

    /// Links the unit to be spawned to the parent with the given tag.
    pub fn link_with(self, tag: Tag) -> (r: AbstractProcessBuilder<'a>)
        ensures
            r.link_spec() == Some(tag),
            r.config_spec() == self.config_spec(),
            r.node_spec() == self.node_spec(),
    {
        AbstractProcessBuilder { link: Some(tag), config: self.config, node: self.node }
    }

    /// Spawns the unit with the given configuration.
    pub fn configure(self, config: &'a ProcessConfig) -> (r: AbstractProcessBuilder<'a>)
        ensures
            r.link_spec() == self.link_spec(),
            r.config_spec() == Some(*config),
            r.node_spec() == self.node_spec(),
    {
        AbstractProcessBuilder { link: self.link, config: Some(config), node: self.node }
    }

    /// Spawns the unit on the given node.
    pub fn on_node(self, node: u64) -> (r: AbstractProcessBuilder<'a>)
        ensures
            r.link_spec() == self.link_spec(),
            r.config_spec() == self.config_spec(),
            r.node_spec() == Some(node),
    {
        AbstractProcessBuilder { link: self.link, config: self.config, node: Some(node) }
    }

    /// Resolves the options to a spawn primitive; `None` for a link together
    /// with a remote node, which is not supported.
    pub fn spawn_call(&self) -> (r: Option<SpawnCall>)
        ensures
            r == self.call_spec(),
    {
        match (self.link, self.config, self.node) {
            (Some(_), _, Some(_)) => None,
            (Some(t), Some(c), None) => Some(SpawnCall::SpawnLinkConfigTag(*c, t)),
            (Some(t), None, None) => Some(SpawnCall::SpawnLinkTag(t)),
            (None, Some(c), Some(n)) => Some(SpawnCall::SpawnNodeConfig(n, *c)),
            (None, None, Some(n)) => Some(SpawnCall::SpawnNode(n)),
            (None, Some(c), None) => Some(SpawnCall::SpawnConfig(*c)),
            (None, None, None) => Some(SpawnCall::Spawn),
        }
    }

    fn request<A, E>(
        &self,
        name: Option<String>,
        parent: ProcessRef,
        tags: &mut TagSource,
        arg: A,
        timeout_ms: Option<u64>,
    ) -> (r: Result<SpawnRequest<A>, StartupError<E>>)
        requires
            old(tags).can_issue(),
        ensures
            requested(*self, *old(tags), *final(tags), name, parent, arg, timeout_ms, r),
    {
        match self.spawn_call() {
            None => Err(StartupError::LinkAcrossNodes),
            Some(call) => {
                let init_tag = tags.fresh();
                Ok(SpawnRequest { call, name, parent, init_tag, arg, timeout_ms })
            },
        }
    }

    /// Decides how to spawn a unit that reports its initialization to
    /// `parent`, whose reply is awaited without bound.
    pub fn start<A, E>(&self, parent: ProcessRef, tags: &mut TagSource, arg: A) -> (r: Result<
        SpawnRequest<A>,
        StartupError<E>,
    >)
        requires
            old(tags).can_issue(),
        ensures
            requested(*self, *old(tags), *final(tags), None, parent, arg, None, r),
    {
        self.request(None, parent, tags, arg, None)
    }

    /// Decides how to spawn a unit whose reply is awaited for at most
    /// `timeout_ms` milliseconds.
    pub fn start_timeout<A, E>(
        &self,
        parent: ProcessRef,
        tags: &mut TagSource,
        arg: A,
        timeout_ms: u64,
    ) -> (r: Result<SpawnRequest<A>, StartupError<E>>)
        requires
            old(tags).can_issue(),
        ensures
            requested(*self, *old(tags), *final(tags), None, parent, arg, Some(timeout_ms), r),
    {
        self.request(None, parent, tags, arg, Some(timeout_ms))
    }

    /// Decides how to spawn a unit registered under `name` on the local node.
    pub fn start_as<A, E>(
        &self,
        name: String,
        parent: ProcessRef,
        tags: &mut TagSource,
        arg: A,
    ) -> (r: Result<SpawnRequest<A>, StartupError<E>>)
        requires
            old(tags).can_issue(),
        ensures
            requested(*self, *old(tags), *final(tags), Some(name), parent, arg, None, r),
    {
        self.request(Some(name), parent, tags, arg, None)
    }
}

} // verus!
