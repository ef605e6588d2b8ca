//! The maple tree: its node cache, registered with the slab allocator.
use vstd::prelude::*;
use crate::slub::{NamedSlubCache, NamedSlubCacheKind};
use crate::state::{condition_error, failed_condition, EventError, EventResult, Lifecycle, LifecycleEvent, State};

verus! {

/// Bytes of one maple tree node: sixteen words.
pub const MAPLE_NODE_CACHE_OBJECT_SIZE: usize = 128;

pub struct MapleTree {
    pub lifecycle: Lifecycle,
    pub node_cache_ready: bool,
    pub registered_in_slub_registry: bool,
    pub node_cache_object_size: usize,
    pub node_api_ready: bool,
}

impl MapleTree {
    /// The tree is in its initial or its ready state, and it is ready exactly when its node
    /// cache is ready, registered with the slab allocator, of the node size, and the node API
    /// is ready. `new` establishes this and `setup` keeps it.
    pub open spec fn state_consistent(&self) -> bool {
        &&& self.lifecycle@ == State::Base || self.lifecycle@ == State::Ready
        &&& self.lifecycle@ == State::Ready <==> (self.node_cache_ready
            && self.registered_in_slub_registry && self.node_api_ready
            && self.node_cache_object_size == MAPLE_NODE_CACHE_OBJECT_SIZE)
    }

    pub fn new() -> (s: Self)
        ensures
            s.state_consistent(),
            s.lifecycle@ == State::Base,
            !s.node_cache_ready,
            !s.registered_in_slub_registry,
            s.node_cache_object_size == 0,
            !s.node_api_ready,
    {
        Self {
            lifecycle: Lifecycle::new(State::Base),
            node_cache_ready: false,
            registered_in_slub_registry: false,
            node_cache_object_size: 0,
            node_api_ready: false,
        }
    }

    pub fn state(&self) -> (r: State)
        ensures
            r == self.lifecycle@,
    {
        self.lifecycle.state()
    }

    pub fn node_cache_ready(&self) -> (r: bool)
        ensures
            r == self.node_cache_ready,
    {
        self.node_cache_ready
    }

    pub fn registered_in_slub_registry(&self) -> (r: bool)
        ensures
            r == self.registered_in_slub_registry,
    {
        self.registered_in_slub_registry
    }

    pub fn node_cache_object_size(&self) -> (r: usize)
        ensures
            r == self.node_cache_object_size,
    {
        self.node_cache_object_size
    }

    pub fn node_api_ready(&self) -> (r: bool)
        ensures
            r == self.node_api_ready,
    {
        self.node_api_ready
    }

    /// Sets the tree up on a ready slab allocator. Once the guards hold, the caller
    /// registers the node cache (kind `MapleNode`, `MAPLE_NODE_CACHE_OBJECT_SIZE` bytes)
    /// and passes what the registration returned as `registered`.
    pub fn setup(&mut self, slub_state: State, registered: Option<NamedSlubCache>) -> (r: EventResult)
        ensures
            old(self).lifecycle@ != State::Base || slub_state != State::Ready || !(registered
                == Some(
                NamedSlubCache {
                    kind: NamedSlubCacheKind::MapleNode,
                    object_size: MAPLE_NODE_CACHE_OBJECT_SIZE,
                },
            )) ==> r == Err::<(), EventError>(
                condition_error(LifecycleEvent::Setup, old(self).lifecycle@, State::Base, State::Ready),
            ) && *final(self) == *old(self),
            old(self).lifecycle@ == State::Base && slub_state == State::Ready && registered == Some(
                NamedSlubCache {
                    kind: NamedSlubCacheKind::MapleNode,
                    object_size: MAPLE_NODE_CACHE_OBJECT_SIZE,
                },
            ) ==> r == Ok::<(), EventError>(()) && final(self).lifecycle@ == State::Ready
                && final(self).node_cache_ready && final(self).registered_in_slub_registry
                && final(self).node_cache_object_size == MAPLE_NODE_CACHE_OBJECT_SIZE
                && final(self).node_api_ready,
            old(self).state_consistent() ==> final(self).state_consistent(),
    {
        if self.lifecycle.state() != State::Base || slub_state != State::Ready {
            return failed_condition(
                LifecycleEvent::Setup,
                self.lifecycle.state(),
                State::Base,
                State::Ready,
            );
        }
        let cache = match registered {
            Some(c) => c,
            None => {
                return failed_condition(
                    LifecycleEvent::Setup,
                    self.lifecycle.state(),
                    State::Base,
                    State::Ready,
                );
            },
        };
        if cache.kind != NamedSlubCacheKind::MapleNode || cache.object_size
            != MAPLE_NODE_CACHE_OBJECT_SIZE {
            return failed_condition(
                LifecycleEvent::Setup,
                self.lifecycle.state(),
                State::Base,
                State::Ready,
            );
        }
        self.node_cache_ready = true;
        self.registered_in_slub_registry = true;
        self.node_cache_object_size = MAPLE_NODE_CACHE_OBJECT_SIZE;
        self.node_api_ready = true;
        self.lifecycle.transition(LifecycleEvent::Setup, State::Base, State::Ready)
    }
}

} // verus!
