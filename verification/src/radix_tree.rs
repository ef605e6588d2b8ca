//! The radix tree: its node cache, registered with the slab allocator, and its CPU
//! hotplug step.
use vstd::prelude::*;
use crate::slub::{NamedSlubCache, NamedSlubCacheKind};
use crate::state::{condition_error, failed_condition, EventError, EventResult, Lifecycle, LifecycleEvent, State};

verus! {

/// The CPU hotplug step of the radix tree's per-CPU preload.
pub const RADIX_TREE_CPUHP_STEP: usize = 0x300;

/// Bytes of one radix tree node: eight words.
pub const RADIX_TREE_NODE_CACHE_OBJECT_SIZE: usize = 64;

pub struct RadixTree {
    pub lifecycle: Lifecycle,
    pub node_cache_ready: bool,
    pub registered_in_slub_registry: bool,
    pub node_cache_object_size: usize,
    pub cpuhp_step: usize,
    pub node_api_ready: bool,
    pub node_rcu_free_callback_deferred: bool,
}

impl RadixTree {
    pub fn new() -> (s: Self)
        ensures
            s.lifecycle@ == State::Base,
            !s.node_cache_ready,
            !s.registered_in_slub_registry,
            s.node_cache_object_size == 0,
            s.cpuhp_step == 0,
            !s.node_api_ready,
            !s.node_rcu_free_callback_deferred,
    {
        Self {
            lifecycle: Lifecycle::new(State::Base),
            node_cache_ready: false,
            registered_in_slub_registry: false,
            node_cache_object_size: 0,
            cpuhp_step: 0,
            node_api_ready: false,
            node_rcu_free_callback_deferred: false,
        }
    }

    pub fn state(&self) -> (r: State)
        ensures
            r == self.lifecycle@,
    {
        self.lifecycle.state()
    }

    pub fn node_cache_ready(&self) -> (r: bool)
        ensures
            r == self.node_cache_ready,
    {
        self.node_cache_ready
    }

    pub fn registered_in_slub_registry(&self) -> (r: bool)
        ensures
            r == self.registered_in_slub_registry,
    {
        self.registered_in_slub_registry
    }

    pub fn node_cache_object_size(&self) -> (r: usize)
        ensures
            r == self.node_cache_object_size,
    {
        self.node_cache_object_size
    }

    pub fn cpuhp_step(&self) -> (r: usize)
        ensures
            r == self.cpuhp_step,
    {
        self.cpuhp_step
    }

    pub fn node_api_ready(&self) -> (r: bool)
        ensures
            r == self.node_api_ready,
    {
        self.node_api_ready
    }

    pub fn node_rcu_free_callback_deferred(&self) -> (r: bool)
        ensures
            r == self.node_rcu_free_callback_deferred,
    {
        self.node_rcu_free_callback_deferred
    }

    /// Sets the tree up on a ready slab allocator and CPU hotplug state. Once the
    /// guards hold, the caller registers the node cache (kind `RadixTreeNode`,
    /// `RADIX_TREE_NODE_CACHE_OBJECT_SIZE` bytes) and passes what it returned.
    pub fn setup(
        &mut self,
        slub_state: State,
        cpu_hotplug_state: State,
        registered: Option<NamedSlubCache>,
    ) -> (r: EventResult)
        ensures
            old(self).lifecycle@ != State::Base || slub_state != State::Ready || cpu_hotplug_state
                != State::Ready || !(registered == Some(
                NamedSlubCache {
                    kind: NamedSlubCacheKind::RadixTreeNode,
                    object_size: RADIX_TREE_NODE_CACHE_OBJECT_SIZE,
                },
            )) ==> r == Err::<(), EventError>(
                condition_error(LifecycleEvent::Setup, old(self).lifecycle@, State::Base, State::Ready),
            ) && *final(self) == *old(self),
            old(self).lifecycle@ == State::Base && slub_state == State::Ready && cpu_hotplug_state
                == State::Ready && registered == Some(
                NamedSlubCache {
                    kind: NamedSlubCacheKind::RadixTreeNode,
                    object_size: RADIX_TREE_NODE_CACHE_OBJECT_SIZE,
                },
            ) ==> r == Ok::<(), EventError>(()) && final(self).lifecycle@ == State::Ready
                && final(self).node_cache_ready && final(self).registered_in_slub_registry
                && final(self).node_cache_object_size == RADIX_TREE_NODE_CACHE_OBJECT_SIZE
                && final(self).cpuhp_step == RADIX_TREE_CPUHP_STEP && final(self).node_api_ready
                && final(self).node_rcu_free_callback_deferred,
    {
        if self.lifecycle.state() != State::Base || slub_state != State::Ready || cpu_hotplug_state
            != State::Ready {
            return failed_condition(
                LifecycleEvent::Setup,
                self.lifecycle.state(),
                State::Base,
                State::Ready,
            );
        }
        let cache = match registered {
            Some(c) => c,
            None => {
                return failed_condition(
                    LifecycleEvent::Setup,
                    self.lifecycle.state(),
                    State::Base,
                    State::Ready,
                );
            },
        };
        if cache.kind != NamedSlubCacheKind::RadixTreeNode || cache.object_size
            != RADIX_TREE_NODE_CACHE_OBJECT_SIZE {
            return failed_condition(
                LifecycleEvent::Setup,
                self.lifecycle.state(),
                State::Base,
                State::Ready,
            );
        }
        self.node_cache_ready = true;
        self.registered_in_slub_registry = true;
        self.node_cache_object_size = RADIX_TREE_NODE_CACHE_OBJECT_SIZE;
        self.cpuhp_step = RADIX_TREE_CPUHP_STEP;
        self.node_api_ready = true;
        self.node_rcu_free_callback_deferred = true;
        self.lifecycle.transition(LifecycleEvent::Setup, State::Base, State::Ready)
    }
}

} // verus!
