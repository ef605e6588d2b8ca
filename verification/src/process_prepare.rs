use vstd::prelude::*;
use crate::arith::{max_spec, max_usize, saturating_mul, saturating_mul_spec};
use crate::boot_facts::{Config, CpuCapabilities, CpuGroup};
use crate::slab::KmallocCaches;
use crate::vmalloc::MmStructCache;
use crate::per_cpu_storage::PerCpuStorage;
use crate::state::{
    condition_error, failed_condition, EventError, EventErrorCode, EventResult, Lifecycle,
    LifecycleEvent, State,
};
use crate::task_entry::TaskEntry;

verus! {

pub const PID_MAX_MIN_BASE: usize = 301;
pub const PID_MAX_DEFAULT: usize = 32_768;
pub const PID_MAX_LIMIT: usize = 4_194_304;
pub const PIDNS_ADDING: usize = usize::MAX;
pub const PID_CACHE_LEVEL0: usize = 0;
pub const THREAD_STACK_CACHE_BYTES: usize = 16 * 1024;
pub const TASK_STRUCT_CACHE_BYTES: usize = 4096;
pub const MAX_THREADS_PER_CPU: usize = 8192;
pub const BUILTIN_KEY_TYPE_COUNT: usize = 4;
pub const BUILTIN_LSM_COUNT: usize = 1;
pub const CAPABILITY_HOOK_COUNT: usize = 8;


pub struct RootPidNamespace {
    pub lifecycle: Lifecycle,
    pub idr_ready: bool,
    pub pid_cache_level: usize,
    pub pid_max_min: usize,
    pub pid_max: usize,
    pub compiletime_limit_checked: bool,
}
impl RootPidNamespace {
    pub fn new() -> (s: Self)
        ensures
            s.lifecycle@ == State::Base,
            !s.idr_ready,
            s.pid_cache_level == usize::MAX,
            s.pid_max_min == 0,
            s.pid_max == 0,
            !s.compiletime_limit_checked,
    {
        Self {
            lifecycle: Lifecycle::new(State::Base),
            idr_ready: false,
            pid_cache_level: usize::MAX,
            pid_max_min: 0,
            pid_max: 0,
            compiletime_limit_checked: false,
        }
    }

    pub fn state(&self) -> (r: State)
        ensures
            r == self.lifecycle@,
    {
        self.lifecycle.state()
    }

    pub fn idr_ready(&self) -> (r: bool)
        ensures
            r == self.idr_ready,
    {
        self.idr_ready
    }

    pub fn pid_cache_level(&self) -> (r: usize)
        ensures
            r == self.pid_cache_level,
    {
        self.pid_cache_level
    }

    pub fn pid_max_min(&self) -> (r: usize)
        ensures
            r == self.pid_max_min,
    {
        self.pid_max_min
    }

    pub fn pid_max(&self) -> (r: usize)
        ensures
            r == self.pid_max,
    {
        self.pid_max
    }

    pub fn compiletime_limit_checked(&self) -> (r: bool)
        ensures
            r == self.compiletime_limit_checked,
    {
        self.compiletime_limit_checked
    }

    pub fn setup(&mut self, cpu_group: &CpuGroup, slub_subsystem_state: State, kmalloc_caches: &KmallocCaches) -> (r: EventResult)
        ensures
            !(old(self).lifecycle@ != State::Base || cpu_group.state != State::Ready || slub_subsystem_state != State::Ready || kmalloc_caches.lifecycle@ != State::Ready || cpu_group.possible_cpu_count == 0 ) ==> {
                &&& r is Ok
                &&& final(self).lifecycle@ == State::Ready
                &&& *final(self) == (RootPidNamespace {
                    idr_ready: true,
                    pid_cache_level: PID_CACHE_LEVEL0,
                    pid_max_min: PID_MAX_MIN_BASE,
                    pid_max: max_spec(PID_MAX_DEFAULT as int, saturating_mul_spec(cpu_group.possible_cpu_count, 1024) as int) as usize,
                    compiletime_limit_checked: true,
                    lifecycle: final(self).lifecycle,
                    ..*old(self)
                })
            },
            old(self).lifecycle@ != State::Base || cpu_group.state != State::Ready || slub_subsystem_state != State::Ready || kmalloc_caches.lifecycle@ != State::Ready || cpu_group.possible_cpu_count == 0  ==> {
                &&& r == Err::<(), EventError>(
                    condition_error(
                        LifecycleEvent::Setup,
                        old(self).lifecycle@,
                        State::Base,
                        State::Ready,
                    ),
                )
                &&& *final(self) == *old(self)
            },
    {
        if self.lifecycle.state() != State::Base || cpu_group.state != State::Ready || slub_subsystem_state != State::Ready || kmalloc_caches.state() != State::Ready || cpu_group.possible_cpu_count == 0  {
            return failed_condition(
                LifecycleEvent::Setup,
                self.lifecycle.state(),
                State::Base,
                State::Ready,
            );
        }
        self.idr_ready = true;
        self.pid_cache_level = PID_CACHE_LEVEL0;
        self.pid_max_min = PID_MAX_MIN_BASE;
        self.pid_max = max_usize(PID_MAX_DEFAULT, saturating_mul(cpu_group.possible_cpu_count, 1024));
        self.compiletime_limit_checked = true;
        self.lifecycle.transition(LifecycleEvent::Setup, State::Base, State::Ready)
    }

}

pub struct AnonVmaCore {
    pub lifecycle: Lifecycle,
    pub anon_vma_cache_ready: bool,
    pub anon_vma_chain_cache_ready: bool,
    pub runtime_graph_deferred: bool,
}

impl AnonVmaCore {
    pub fn new() -> (s: Self)
        ensures
            s.lifecycle@ == State::Base,
            !s.anon_vma_cache_ready,
            !s.anon_vma_chain_cache_ready,
            s.runtime_graph_deferred,
    {
        Self {
            lifecycle: Lifecycle::new(State::Base),
            anon_vma_cache_ready: false,
            anon_vma_chain_cache_ready: false,
            runtime_graph_deferred: true,
        }
    }

    pub fn state(&self) -> (r: State)
        ensures
            r == self.lifecycle@,
    {
        self.lifecycle.state()
    }

    pub fn anon_vma_cache_ready(&self) -> (r: bool)
        ensures
            r == self.anon_vma_cache_ready,
    {
        self.anon_vma_cache_ready
    }

    pub fn anon_vma_chain_cache_ready(&self) -> (r: bool)
        ensures
            r == self.anon_vma_chain_cache_ready,
    {
        self.anon_vma_chain_cache_ready
    }

    pub fn runtime_graph_deferred(&self) -> (r: bool)
        ensures
            r == self.runtime_graph_deferred,
    {
        self.runtime_graph_deferred
    }

    pub fn setup(&mut self, slub_subsystem_state: State, kmalloc_caches: &KmallocCaches) -> (r: EventResult)
        ensures
            !(old(self).lifecycle@ != State::Base || slub_subsystem_state != State::Ready || kmalloc_caches.lifecycle@ != State::Ready ) ==> {
                &&& r is Ok
                &&& final(self).lifecycle@ == State::Ready
                &&& *final(self) == (AnonVmaCore {
                    anon_vma_cache_ready: true,
                    anon_vma_chain_cache_ready: true,
                    runtime_graph_deferred: true,
                    lifecycle: final(self).lifecycle,
                    ..*old(self)
                })
            },
            old(self).lifecycle@ != State::Base || slub_subsystem_state != State::Ready || kmalloc_caches.lifecycle@ != State::Ready  ==> {
                &&& r == Err::<(), EventError>(
                    condition_error(
                        LifecycleEvent::Setup,
                        old(self).lifecycle@,
                        State::Base,
                        State::Ready,
                    ),
                )
                &&& *final(self) == *old(self)
            },
    {
        if self.lifecycle.state() != State::Base || slub_subsystem_state != State::Ready || kmalloc_caches.state() != State::Ready  {
            return failed_condition(
                LifecycleEvent::Setup,
                self.lifecycle.state(),
                State::Base,
                State::Ready,
            );
        }
        self.anon_vma_cache_ready = true;
        self.anon_vma_chain_cache_ready = true;
        self.runtime_graph_deferred = true;
        self.lifecycle.transition(LifecycleEvent::Setup, State::Base, State::Ready)
    }

}

pub struct CredentialCore {
    pub lifecycle: Lifecycle,
    pub cred_cache_ready: bool,
    pub init_cred_static_root_not_created_here: bool,
    pub runtime_relations_deferred: bool,
}
impl CredentialCore {
    pub fn new() -> (s: Self)
        ensures
            s.lifecycle@ == State::Base,
            !s.cred_cache_ready,
            s.init_cred_static_root_not_created_here,
            s.runtime_relations_deferred,
    {
        Self {
            lifecycle: Lifecycle::new(State::Base),
            cred_cache_ready: false,
            init_cred_static_root_not_created_here: true,
            runtime_relations_deferred: true,
        }
    }

    pub fn state(&self) -> (r: State)
        ensures
            r == self.lifecycle@,
    {
        self.lifecycle.state()
    }

    pub fn cred_cache_ready(&self) -> (r: bool)
        ensures
            r == self.cred_cache_ready,
    {
        self.cred_cache_ready
    }

    pub fn init_cred_static_root_not_created_here(&self) -> (r: bool)
        ensures
            r == self.init_cred_static_root_not_created_here,
    {
        self.init_cred_static_root_not_created_here
    }

    pub fn runtime_relations_deferred(&self) -> (r: bool)
        ensures
            r == self.runtime_relations_deferred,
    {
        self.runtime_relations_deferred
    }

    pub fn preset(&mut self, slub_subsystem_state: State, kmalloc_caches: &KmallocCaches) -> (r: EventResult)
        ensures
            !(old(self).lifecycle@ != State::Base || slub_subsystem_state != State::Ready || kmalloc_caches.lifecycle@ != State::Ready ) ==> {
                &&& r is Ok
                &&& final(self).lifecycle@ == State::Prepared
                &&& *final(self) == (CredentialCore {
                    cred_cache_ready: true,
                    init_cred_static_root_not_created_here: true,
                    runtime_relations_deferred: true,
                    lifecycle: final(self).lifecycle,
                    ..*old(self)
                })
            },
            old(self).lifecycle@ != State::Base || slub_subsystem_state != State::Ready || kmalloc_caches.lifecycle@ != State::Ready  ==> {
                &&& r == Err::<(), EventError>(
                    condition_error(
                        LifecycleEvent::Preset,
                        old(self).lifecycle@,
                        State::Base,
                        State::Prepared,
                    ),
                )
                &&& *final(self) == *old(self)
            },
    {
        if self.lifecycle.state() != State::Base || slub_subsystem_state != State::Ready || kmalloc_caches.state() != State::Ready  {
            return failed_condition(
                LifecycleEvent::Preset,
                self.lifecycle.state(),
                State::Base,
                State::Prepared,
            );
        }
        self.cred_cache_ready = true;
        self.init_cred_static_root_not_created_here = true;
        self.runtime_relations_deferred = true;
        self.lifecycle.transition(LifecycleEvent::Preset, State::Base, State::Prepared)
    }

}

pub struct VectorContext {
    pub lifecycle: Lifecycle,
    pub vector_supported: bool,
    pub user_cache_ready: bool,
    pub kernel_cache_ready: bool,
}

impl VectorContext {
    fn new() -> (s: Self)
        ensures
            s.lifecycle@ == State::Base,
            !s.vector_supported,
            !s.user_cache_ready,
            !s.kernel_cache_ready,
    {
        Self {
            lifecycle: Lifecycle::new(State::Base),
            vector_supported: false,
            user_cache_ready: false,
            kernel_cache_ready: false,
        }
    }

    pub fn state(&self) -> (r: State)
        ensures
            r == self.lifecycle@,
    {
        self.lifecycle.state()
    }

    pub fn vector_supported(&self) -> (r: bool)
        ensures
            r == self.vector_supported,
    {
        self.vector_supported
    }

    pub fn user_cache_ready(&self) -> (r: bool)
        ensures
            r == self.user_cache_ready,
    {
        self.user_cache_ready
    }

    pub fn kernel_cache_ready(&self) -> (r: bool)
        ensures
            r == self.kernel_cache_ready,
    {
        self.kernel_cache_ready
    }

    fn preset(&mut self, cpu_capabilities: &CpuCapabilities, slub_subsystem_state: State) -> (r: EventResult)
        ensures
            !(old(self).lifecycle@ != State::Base || cpu_capabilities.state != State::Ready || slub_subsystem_state != State::Ready ) ==> {
                &&& r is Ok
                &&& final(self).lifecycle@ == State::Prepared
                &&& *final(self) == (VectorContext {
                    vector_supported: cpu_capabilities.vector_supported,
                    user_cache_ready: cpu_capabilities.vector_supported,
                    kernel_cache_ready: cpu_capabilities.vector_supported,
                    lifecycle: final(self).lifecycle,
                    ..*old(self)
                })
            },
            old(self).lifecycle@ != State::Base || cpu_capabilities.state != State::Ready || slub_subsystem_state != State::Ready  ==> {
                &&& r == Err::<(), EventError>(
                    condition_error(
                        LifecycleEvent::Preset,
                        old(self).lifecycle@,
                        State::Base,
                        State::Prepared,
                    ),
                )
                &&& *final(self) == *old(self)
            },
    {
        if self.lifecycle.state() != State::Base || cpu_capabilities.state != State::Ready || slub_subsystem_state != State::Ready  {
            return failed_condition(
                LifecycleEvent::Preset,
                self.lifecycle.state(),
                State::Base,
                State::Prepared,
            );
        }
        self.vector_supported = cpu_capabilities.vector_supported;
        self.user_cache_ready = self.vector_supported;
        self.kernel_cache_ready = self.vector_supported;
        self.lifecycle.transition(LifecycleEvent::Preset, State::Base, State::Prepared)
    }
}

pub struct UprobeCore {
    pub lifecycle: Lifecycle,
    pub hash_mutex_ready: bool,
    pub die_notifier_registered: bool,
}

impl UprobeCore {
    fn new() -> (s: Self)
        ensures
            s.lifecycle@ == State::Base,
            !s.hash_mutex_ready,
            !s.die_notifier_registered,
    {
        Self {
            lifecycle: Lifecycle::new(State::Base),
            hash_mutex_ready: false,
            die_notifier_registered: false,
        }
    }

    pub fn state(&self) -> (r: State)
        ensures
            r == self.lifecycle@,
    {
        self.lifecycle.state()
    }

    pub fn hash_mutex_ready(&self) -> (r: bool)
        ensures
            r == self.hash_mutex_ready,
    {
        self.hash_mutex_ready
    }

    pub fn die_notifier_registered(&self) -> (r: bool)
        ensures
            r == self.die_notifier_registered,
    {
        self.die_notifier_registered
    }

    fn setup(&mut self, exception_stream_state: State, slub_subsystem_state: State) -> (r: EventResult)
        ensures
            !(old(self).lifecycle@ != State::Base || exception_stream_state != State::Ready || slub_subsystem_state != State::Ready ) ==> {
                &&& r is Ok
                &&& final(self).lifecycle@ == State::Ready
                &&& *final(self) == (UprobeCore {
                    hash_mutex_ready: true,
                    die_notifier_registered: true,
                    lifecycle: final(self).lifecycle,
                    ..*old(self)
                })
            },
            old(self).lifecycle@ != State::Base || exception_stream_state != State::Ready || slub_subsystem_state != State::Ready  ==> {
                &&& r == Err::<(), EventError>(
                    condition_error(
                        LifecycleEvent::Setup,
                        old(self).lifecycle@,
                        State::Base,
                        State::Ready,
                    ),
                )
                &&& *final(self) == *old(self)
            },
    {
        if self.lifecycle.state() != State::Base || exception_stream_state != State::Ready || slub_subsystem_state != State::Ready  {
            return failed_condition(
                LifecycleEvent::Setup,
                self.lifecycle.state(),
                State::Base,
                State::Ready,
            );
        }
        self.hash_mutex_ready = true;
        self.die_notifier_registered = true;
        self.lifecycle.transition(LifecycleEvent::Setup, State::Base, State::Ready)
    }
}

pub struct TaskCreationCore {
    pub lifecycle: Lifecycle,
    pub vector_context: VectorContext,
    pub uprobe_core: UprobeCore,
    pub thread_stack_cache_ready: bool,
    pub thread_stack_cache_bytes: usize,
    pub vmap_stack_selected: bool,
    pub task_struct_cache_ready: bool,
    pub task_struct_cache_bytes: usize,
    pub max_threads: usize,
    pub init_task_rlimits_ready: bool,
    pub init_user_namespace_ucounts_ready: bool,
    pub fork_vm_stack_cpuhp_registered: bool,
    pub rest_init_inputs_ready: bool,
    pub entry_contract_ready: bool,
    pub kernel_init_created: bool,
    pub kthreadd_created: bool,
    pub user_child_created: bool,
    pub system_scheduling: bool,
}

impl TaskCreationCore {
    pub fn new() -> (s: Self)
        ensures
            s.lifecycle@ == State::Base,
            s.vector_context.lifecycle@ == State::Base && !s.vector_context.vector_supported,
            s.uprobe_core.lifecycle@ == State::Base,
            !s.thread_stack_cache_ready,
            s.thread_stack_cache_bytes == 0,
            !s.vmap_stack_selected,
            !s.task_struct_cache_ready,
            s.task_struct_cache_bytes == 0,
            s.max_threads == 0,
            !s.init_task_rlimits_ready,
            !s.init_user_namespace_ucounts_ready,
            !s.fork_vm_stack_cpuhp_registered,
            !s.rest_init_inputs_ready,
            !s.entry_contract_ready,
            !s.kernel_init_created,
            !s.kthreadd_created,
            !s.user_child_created,
            !s.system_scheduling,
    {
        Self {
            lifecycle: Lifecycle::new(State::Base),
            vector_context: VectorContext::new(),
            uprobe_core: UprobeCore::new(),
            thread_stack_cache_ready: false,
            thread_stack_cache_bytes: 0,
            vmap_stack_selected: false,
            task_struct_cache_ready: false,
            task_struct_cache_bytes: 0,
            max_threads: 0,
            init_task_rlimits_ready: false,
            init_user_namespace_ucounts_ready: false,
            fork_vm_stack_cpuhp_registered: false,
            rest_init_inputs_ready: false,
            entry_contract_ready: false,
            kernel_init_created: false,
            kthreadd_created: false,
            user_child_created: false,
            system_scheduling: false,
        }
    }

    pub fn state(&self) -> (r: State)
        ensures
            r == self.lifecycle@,
    {
        self.lifecycle.state()
    }

    pub fn vector_context(&self) -> (r: &VectorContext)
        ensures
            *r == self.vector_context,
    {
        &self.vector_context
    }

    pub fn uprobe_core(&self) -> (r: &UprobeCore)
        ensures
            *r == self.uprobe_core,
    {
        &self.uprobe_core
    }

    pub fn thread_stack_cache_ready(&self) -> (r: bool)
        ensures
            r == self.thread_stack_cache_ready,
    {
        self.thread_stack_cache_ready
    }

    pub fn thread_stack_cache_bytes(&self) -> (r: usize)
        ensures
            r == self.thread_stack_cache_bytes,
    {
        self.thread_stack_cache_bytes
    }

    pub fn vmap_stack_selected(&self) -> (r: bool)
        ensures
            r == self.vmap_stack_selected,
    {
        self.vmap_stack_selected
    }

    pub fn task_struct_cache_ready(&self) -> (r: bool)
        ensures
            r == self.task_struct_cache_ready,
    {
        self.task_struct_cache_ready
    }

    pub fn task_struct_cache_bytes(&self) -> (r: usize)
        ensures
            r == self.task_struct_cache_bytes,
    {
        self.task_struct_cache_bytes
    }

    pub fn max_threads(&self) -> (r: usize)
        ensures
            r == self.max_threads,
    {
        self.max_threads
    }

    pub fn init_task_rlimits_ready(&self) -> (r: bool)
        ensures
            r == self.init_task_rlimits_ready,
    {
        self.init_task_rlimits_ready
    }

    pub fn init_user_namespace_ucounts_ready(&self) -> (r: bool)
        ensures
            r == self.init_user_namespace_ucounts_ready,
    {
        self.init_user_namespace_ucounts_ready
    }

    pub fn fork_vm_stack_cpuhp_registered(&self) -> (r: bool)
        ensures
            r == self.fork_vm_stack_cpuhp_registered,
    {
        self.fork_vm_stack_cpuhp_registered
    }

    pub fn rest_init_inputs_ready(&self) -> (r: bool)
        ensures
            r == self.rest_init_inputs_ready,
    {
        self.rest_init_inputs_ready
    }

    pub fn entry_contract_ready(&self) -> (r: bool)
        ensures
            r == self.entry_contract_ready,
    {
        self.entry_contract_ready
    }

    pub fn kernel_init_created(&self) -> (r: bool)
        ensures
            r == self.kernel_init_created,
    {
        self.kernel_init_created
    }

    pub fn kthreadd_created(&self) -> (r: bool)
        ensures
            r == self.kthreadd_created,
    {
        self.kthreadd_created
    }

    // Observed by the optional user-boot checkpoint handlers.
    pub fn user_child_created(&self) -> (r: bool)
        ensures
            r == self.user_child_created,
    {
        self.user_child_created
    }

    pub fn system_scheduling(&self) -> (r: bool)
        ensures
            r == self.system_scheduling,
    {
        self.system_scheduling
    }

    pub fn preset(&mut self, slub_subsystem_state: State, kmalloc_caches: &KmallocCaches, per_cpu_storage: &PerCpuStorage) -> (r: EventResult)
        ensures
            !(old(self).lifecycle@ != State::Base || slub_subsystem_state != State::Ready || kmalloc_caches.lifecycle@ != State::Ready || per_cpu_storage.lifecycle@ != State::Ready ) ==> {
                &&& r is Ok
                &&& final(self).lifecycle@ == State::Prepared
                &&& *final(self) == (TaskCreationCore {
                    thread_stack_cache_ready: true,
                    thread_stack_cache_bytes: THREAD_STACK_CACHE_BYTES,
                    vmap_stack_selected: true,
                    lifecycle: final(self).lifecycle,
                    ..*old(self)
                })
            },
            old(self).lifecycle@ != State::Base || slub_subsystem_state != State::Ready || kmalloc_caches.lifecycle@ != State::Ready || per_cpu_storage.lifecycle@ != State::Ready  ==> {
                &&& r == Err::<(), EventError>(
                    condition_error(
                        LifecycleEvent::Preset,
                        old(self).lifecycle@,
                        State::Base,
                        State::Prepared,
                    ),
                )
                &&& *final(self) == *old(self)
            },
    {
        if self.lifecycle.state() != State::Base || slub_subsystem_state != State::Ready || kmalloc_caches.state() != State::Ready || per_cpu_storage.state() != State::Ready  {
            return failed_condition(
                LifecycleEvent::Preset,
                self.lifecycle.state(),
                State::Base,
                State::Prepared,
            );
        }
        self.thread_stack_cache_ready = true;
        self.thread_stack_cache_bytes = THREAD_STACK_CACHE_BYTES;
        self.vmap_stack_selected = true;
        self.lifecycle.transition(LifecycleEvent::Preset, State::Base, State::Prepared)
    }

    /// Binds the task-creation inputs: the vector context and uprobe core are brought up,
    /// the task cache sized, and the thread limit set from the CPU count.
    pub fn setup(&mut self, inputs: TaskCreationSetup<'_>) -> (r: EventResult)
        ensures
            !creation_inputs_ready(*old(self), inputs) ==> {
                &&& r == Err::<(), EventError>(
                    condition_error(
                        LifecycleEvent::Setup,
                        old(self).lifecycle@,
                        State::Prepared,
                        State::Ready,
                    ),
                )
                &&& *final(self) == *old(self)
            },
            creation_inputs_ready(*old(self), inputs) && old(self).vector_context.lifecycle@
                != State::Base ==> {
                &&& r == Err::<(), EventError>(
                    condition_error(
                        LifecycleEvent::Preset,
                        old(self).vector_context.lifecycle@,
                        State::Base,
                        State::Prepared,
                    ),
                )
                &&& *final(self) == *old(self)
            },
            creation_inputs_ready(*old(self), inputs) && old(self).vector_context.lifecycle@
                == State::Base && old(self).uprobe_core.lifecycle@ != State::Base ==> {
                &&& r == Err::<(), EventError>(
                    condition_error(
                        LifecycleEvent::Setup,
                        old(self).uprobe_core.lifecycle@,
                        State::Base,
                        State::Ready,
                    ),
                )
                &&& final(self).lifecycle@ == old(self).lifecycle@
                &&& final(self).vector_context.lifecycle@ == State::Prepared
            },
            creation_inputs_ready(*old(self), inputs) && old(self).vector_context.lifecycle@
                == State::Base && old(self).uprobe_core.lifecycle@ == State::Base ==> {
                &&& r is Ok
                &&& final(self).lifecycle@ == State::Ready
                &&& final(self).vector_context.lifecycle@ == State::Prepared
                &&& final(self).vector_context.vector_supported
                    == inputs.cpu_capabilities.vector_supported
                &&& final(self).uprobe_core.lifecycle@ == State::Ready
                &&& final(self).task_struct_cache_ready
                &&& final(self).task_struct_cache_bytes == TASK_STRUCT_CACHE_BYTES
                &&& final(self).max_threads == max_spec(
                    saturating_mul_spec(
                        inputs.cpu_group.possible_cpu_count,
                        MAX_THREADS_PER_CPU,
                    ) as int,
                    MAX_THREADS_PER_CPU as int,
                )
                &&& final(self).init_task_rlimits_ready
                &&& final(self).init_user_namespace_ucounts_ready
                &&& final(self).fork_vm_stack_cpuhp_registered == old(self).vmap_stack_selected
                &&& final(self).rest_init_inputs_ready
                &&& final(self).entry_contract_ready
                &&& !final(self).kernel_init_created
                &&& !final(self).kthreadd_created
                &&& !final(self).user_child_created
                &&& !final(self).system_scheduling
                &&& final(self).thread_stack_cache_ready == old(self).thread_stack_cache_ready
                &&& final(self).vmap_stack_selected == old(self).vmap_stack_selected
            },
    {
        if self.lifecycle.state() != State::Prepared || inputs.root_pid_namespace.state()
            != State::Ready || inputs.credential_core.state() != State::Prepared
            || inputs.cpu_group.state != State::Ready || inputs.cpu_capabilities.state
            != State::Ready || inputs.slub_subsystem_state != State::Ready
            || inputs.boot_task_state != State::Online || inputs.exception_stream_state
            != State::Ready {
            return failed_condition(
                LifecycleEvent::Setup,
                self.lifecycle.state(),
                State::Prepared,
                State::Ready,
            );
        }
        self.vector_context.preset(inputs.cpu_capabilities, inputs.slub_subsystem_state)?;
        self.uprobe_core.setup(inputs.exception_stream_state, inputs.slub_subsystem_state)?;
        self.task_struct_cache_ready = true;
        self.task_struct_cache_bytes = TASK_STRUCT_CACHE_BYTES;
        self.max_threads = max_usize(
            saturating_mul(inputs.cpu_group.possible_cpu_count, MAX_THREADS_PER_CPU),
            MAX_THREADS_PER_CPU,
        );
        self.init_task_rlimits_ready = true;
        self.init_user_namespace_ucounts_ready = true;
        self.fork_vm_stack_cpuhp_registered = self.vmap_stack_selected;
        self.rest_init_inputs_ready = true;
        self.entry_contract_ready = true;
        self.kernel_init_created = false;
        self.kthreadd_created = false;
        self.user_child_created = false;
        self.system_scheduling = false;
        if self.vector_context.state() != State::Prepared || self.uprobe_core.state()
            != State::Ready || self.max_threads == 0 || !self.entry_contract_ready
            || !self.rest_init_inputs_ready {
            return failed_condition(
                LifecycleEvent::Setup,
                self.lifecycle.state(),
                State::Prepared,
                State::Ready,
            );
        }
        self.lifecycle.transition(LifecycleEvent::Setup, State::Prepared, State::Ready)
    }

    /// Copies the boot task into a new kernel task (kernel init or kthreadd), which is created
    /// in its prepared state and not yet enqueued.
    pub fn copy_process(
        &mut self,
        inputs: TaskCopyProcessInputs<'_>,
        dst_state: State,
        dst_entry: TaskEntry,
    ) -> (r: Result<TaskCopyProcessResult, EventError>)
        ensures
            !copy_process_allowed(*old(self), inputs, dst_state, dst_entry) ==> {
                &&& r == Err::<TaskCopyProcessResult, EventError>(
                    condition_error(LifecycleEvent::Setup, dst_state, State::Prepared, State::Ready),
                )
                &&& *final(self) == *old(self)
            },
            copy_process_allowed(*old(self), inputs, dst_state, dst_entry) ==> {
                &&& r == Ok::<TaskCopyProcessResult, EventError>(
                    TaskCopyProcessResult {
                        entry: inputs.entry,
                        task_struct_allocated: old(self).task_struct_cache_ready,
                        thread_context_ready: old(self).thread_stack_cache_ready,
                        sched_entity_ready: true,
                        task_state_new: true,
                        task_not_enqueued: true,
                    },
                )
                &&& *final(self) == (TaskCreationCore {
                    kernel_init_created: old(self).kernel_init_created || inputs.entry
                        == TaskEntry::KernelInit,
                    kthreadd_created: old(self).kthreadd_created || inputs.entry
                        == TaskEntry::Kthreadd,
                    ..*old(self)
                })
            },
    {
        if self.lifecycle.state() != State::Ready || !self.entry_contract_ready
            || !self.rest_init_inputs_ready || dst_state != State::Prepared || dst_entry
            != inputs.entry || inputs.entry == TaskEntry::Unbound || inputs.entry
            == TaskEntry::UserChild || inputs.entry == TaskEntry::SmokeScheduler
            || inputs.src_task_state != State::Online || inputs.root_pid_namespace.state()
            != State::Ready || inputs.credential_core.state() != State::Prepared
            || inputs.signal_core.state() != State::Prepared || inputs.task_file_context.state()
            != State::Prepared || inputs.security_core.state() != State::Ready
            || inputs.scheduler_state != State::Online || !inputs.boot_cpu_scheduler_view_owned {
            return Err(
                EventError::failed(
                    EventErrorCode::ConditionFailed,
                    LifecycleEvent::Setup,
                    dst_state,
                    State::Prepared,
                    State::Ready,
                ),
            );
        }
        match inputs.entry {
            TaskEntry::KernelInit => self.kernel_init_created = true,
            TaskEntry::Kthreadd => self.kthreadd_created = true,
            _ => {},
        }
        Ok(
            TaskCopyProcessResult {
                entry: inputs.entry,
                task_struct_allocated: self.task_struct_cache_ready,
                thread_context_ready: self.thread_stack_cache_ready,
                sched_entity_ready: true,
                task_state_new: true,
                task_not_enqueued: true,
            },
        )
    }

    /// Copies the kernel init task's user flow into the user child task.
    pub fn copy_user_process(
        &mut self,
        inputs: TaskCopyUserProcessInputs<'_>,
        dst_state: State,
        dst_entry: TaskEntry,
    ) -> (r: Result<TaskCopyProcessResult, EventError>)
        ensures
            !copy_user_process_allowed(*old(self), inputs, dst_state, dst_entry) ==> {
                &&& r == Err::<TaskCopyProcessResult, EventError>(
                    condition_error(LifecycleEvent::Setup, dst_state, State::Prepared, State::Ready),
                )
                &&& *final(self) == *old(self)
            },
            copy_user_process_allowed(*old(self), inputs, dst_state, dst_entry) ==> {
                &&& r == Ok::<TaskCopyProcessResult, EventError>(
                    TaskCopyProcessResult {
                        entry: inputs.entry,
                        task_struct_allocated: old(self).task_struct_cache_ready,
                        thread_context_ready: old(self).thread_stack_cache_ready,
                        sched_entity_ready: true,
                        task_state_new: true,
                        task_not_enqueued: true,
                    },
                )
                &&& *final(self) == (TaskCreationCore { user_child_created: true, ..*old(self) })
            },
    {
        let dst_prepared_record = dst_state == State::Prepared
            && inputs.dst_process_active_task_state == State::Prepared
            && inputs.dst_process_prepared;
        let dst_nested_vfork_record = inputs.allow_nested_vfork && dst_state == State::Ready
            && inputs.dst_process_nested_vfork_copy_ready;
        if self.lifecycle.state() != State::Ready || !self.entry_contract_ready
            || !self.rest_init_inputs_ready || dst_entry != TaskEntry::UserChild || inputs.entry
            != TaskEntry::UserChild || !inputs.src_process_active_user_flow_online || !(
        dst_prepared_record || dst_nested_vfork_record) || inputs.root_pid_namespace.state()
            != State::Ready || inputs.scheduler_state != State::Online || inputs.fs_struct_state
            != State::Ready || inputs.files_struct_state != State::Ready
            || inputs.address_space_state != State::Online || inputs.trap_frame_state
            != State::Ready || inputs.boundaries_state != State::Ready
            || !inputs.boundaries_plain_fork_first_slice_bound
            || !inputs.boot_cpu_scheduler_view_owned {
            return Err(
                EventError::failed(
                    EventErrorCode::ConditionFailed,
                    LifecycleEvent::Setup,
                    dst_state,
                    State::Prepared,
                    State::Ready,
                ),
            );
        }
        self.user_child_created = true;
        Ok(
            TaskCopyProcessResult {
                entry: inputs.entry,
                task_struct_allocated: self.task_struct_cache_ready,
                thread_context_ready: self.thread_stack_cache_ready,
                sched_entity_ready: true,
                task_state_new: true,
                task_not_enqueued: true,
            },
        )
    }
}

/// The inputs of the task-creation setup are all in the states it needs.
pub open spec fn creation_inputs_ready(c: TaskCreationCore, inputs: TaskCreationSetup<'_>) -> bool {
    &&& c.lifecycle@ == State::Prepared
    &&& inputs.root_pid_namespace.lifecycle@ == State::Ready
    &&& inputs.credential_core.lifecycle@ == State::Prepared
    &&& inputs.cpu_group.state == State::Ready
    &&& inputs.cpu_capabilities.state == State::Ready
    &&& inputs.slub_subsystem_state == State::Ready
    &&& inputs.boot_task_state == State::Online
    &&& inputs.exception_stream_state == State::Ready
}

/// A kernel task may be copied: the core is ready, the entry is a kernel entry that the
/// destination expects, and every subsystem the copy reads is in place.
pub open spec fn copy_process_allowed(
    c: TaskCreationCore,
    inputs: TaskCopyProcessInputs<'_>,
    dst_state: State,
    dst_entry: TaskEntry,
) -> bool {
    &&& c.lifecycle@ == State::Ready
    &&& c.entry_contract_ready
    &&& c.rest_init_inputs_ready
    &&& dst_state == State::Prepared
    &&& dst_entry == inputs.entry
    &&& inputs.entry != TaskEntry::Unbound
    &&& inputs.entry != TaskEntry::UserChild
    &&& inputs.entry != TaskEntry::SmokeScheduler
    &&& inputs.src_task_state == State::Online
    &&& inputs.root_pid_namespace.lifecycle@ == State::Ready
    &&& inputs.credential_core.lifecycle@ == State::Prepared
    &&& inputs.signal_core.lifecycle@ == State::Prepared
    &&& inputs.task_file_context.lifecycle@ == State::Prepared
    &&& inputs.security_core.lifecycle@ == State::Ready
    &&& inputs.scheduler_state == State::Online
    &&& inputs.boot_cpu_scheduler_view_owned
}

/// The user child may be copied: either into a prepared record or, where allowed, into a
/// nested vfork copy.
pub open spec fn copy_user_process_allowed(
    c: TaskCreationCore,
    inputs: TaskCopyUserProcessInputs<'_>,
    dst_state: State,
    dst_entry: TaskEntry,
) -> bool {
    let dst_prepared_record = dst_state == State::Prepared && inputs.dst_process_active_task_state
        == State::Prepared && inputs.dst_process_prepared;
    let dst_nested_vfork_record = inputs.allow_nested_vfork && dst_state == State::Ready
        && inputs.dst_process_nested_vfork_copy_ready;
    &&& c.lifecycle@ == State::Ready
    &&& c.entry_contract_ready
    &&& c.rest_init_inputs_ready
    &&& dst_entry == TaskEntry::UserChild
    &&& inputs.entry == TaskEntry::UserChild
    &&& inputs.src_process_active_user_flow_online
    &&& (dst_prepared_record || dst_nested_vfork_record)
    &&& inputs.root_pid_namespace.lifecycle@ == State::Ready
    &&& inputs.scheduler_state == State::Online
    &&& inputs.fs_struct_state == State::Ready
    &&& inputs.files_struct_state == State::Ready
    &&& inputs.address_space_state == State::Online
    &&& inputs.trap_frame_state == State::Ready
    &&& inputs.boundaries_state == State::Ready
    &&& inputs.boundaries_plain_fork_first_slice_bound
    &&& inputs.boot_cpu_scheduler_view_owned
}

/// What copying a kernel task reads: the source task, the prepared process subsystems and
/// whether the boot CPU owns a scheduler view.
pub struct TaskCopyProcessInputs<'a> {
    pub src_task_state: State,
    pub root_pid_namespace: &'a RootPidNamespace,
    pub credential_core: &'a CredentialCore,
    pub signal_core: &'a SignalCore,
    pub task_file_context: &'a TaskFileContext,
    pub security_core: &'a SecurityCore,
    pub scheduler_state: State,
    pub boot_cpu_scheduler_view_owned: bool,
    pub entry: TaskEntry,
}

/// What copying the user child reads from the source and destination processes and from the
/// user-boot objects.
pub struct TaskCopyUserProcessInputs<'a> {
    pub src_process_active_user_flow_online: bool,
    pub dst_process_active_task_state: State,
    pub dst_process_prepared: bool,
    pub dst_process_nested_vfork_copy_ready: bool,
    pub root_pid_namespace: &'a RootPidNamespace,
    pub scheduler_state: State,
    pub boot_cpu_scheduler_view_owned: bool,
    pub fs_struct_state: State,
    pub files_struct_state: State,
    pub address_space_state: State,
    pub trap_frame_state: State,
    pub boundaries_state: State,
    pub boundaries_plain_fork_first_slice_bound: bool,
    pub entry: TaskEntry,
    pub allow_nested_vfork: bool,
}

pub struct TaskCopyProcessResult {
    pub entry: TaskEntry,
    pub task_struct_allocated: bool,
    pub thread_context_ready: bool,
    pub sched_entity_ready: bool,
    pub task_state_new: bool,
    pub task_not_enqueued: bool,
}

impl TaskCopyProcessResult {
    pub fn entry(&self) -> (r: TaskEntry)
        ensures
            r == self.entry,
    {
        self.entry
    }

    pub fn task_struct_allocated(&self) -> (r: bool)
        ensures
            r == self.task_struct_allocated,
    {
        self.task_struct_allocated
    }

    pub fn thread_context_ready(&self) -> (r: bool)
        ensures
            r == self.thread_context_ready,
    {
        self.thread_context_ready
    }

    pub fn sched_entity_ready(&self) -> (r: bool)
        ensures
            r == self.sched_entity_ready,
    {
        self.sched_entity_ready
    }

    pub fn task_state_new(&self) -> (r: bool)
        ensures
            r == self.task_state_new,
    {
        self.task_state_new
    }

    pub fn task_not_enqueued(&self) -> (r: bool)
        ensures
            r == self.task_not_enqueued,
    {
        self.task_not_enqueued
    }
}

/// What the task-creation setup reads.
pub struct TaskCreationSetup<'a> {
    pub root_pid_namespace: &'a RootPidNamespace,
    pub credential_core: &'a CredentialCore,
    pub cpu_group: &'a CpuGroup,
    pub cpu_capabilities: &'a CpuCapabilities,
    pub slub_subsystem_state: State,
    pub boot_task_state: State,
    pub exception_stream_state: State,
}

pub struct SignalCore {
    pub lifecycle: Lifecycle,
    pub sighand_cache_ready: bool,
    pub signal_struct_cache_ready: bool,
    pub sigqueue_cache_deferred: bool,
}

impl SignalCore {
    pub fn new() -> (s: Self)
        ensures
            s.lifecycle@ == State::Base,
            !s.sighand_cache_ready,
            !s.signal_struct_cache_ready,
            s.sigqueue_cache_deferred,
    {
        Self {
            lifecycle: Lifecycle::new(State::Base),
            sighand_cache_ready: false,
            signal_struct_cache_ready: false,
            sigqueue_cache_deferred: true,
        }
    }

    pub fn state(&self) -> (r: State)
        ensures
            r == self.lifecycle@,
    {
        self.lifecycle.state()
    }

    pub fn sighand_cache_ready(&self) -> (r: bool)
        ensures
            r == self.sighand_cache_ready,
    {
        self.sighand_cache_ready
    }

    pub fn signal_struct_cache_ready(&self) -> (r: bool)
        ensures
            r == self.signal_struct_cache_ready,
    {
        self.signal_struct_cache_ready
    }

    pub fn sigqueue_cache_deferred(&self) -> (r: bool)
        ensures
            r == self.sigqueue_cache_deferred,
    {
        self.sigqueue_cache_deferred
    }

    pub fn preset(&mut self, slub_subsystem_state: State, kmalloc_caches: &KmallocCaches) -> (r: EventResult)
        ensures
            !(old(self).lifecycle@ != State::Base || slub_subsystem_state != State::Ready || kmalloc_caches.lifecycle@ != State::Ready ) ==> {
                &&& r is Ok
                &&& final(self).lifecycle@ == State::Prepared
                &&& *final(self) == (SignalCore {
                    sighand_cache_ready: true,
                    signal_struct_cache_ready: true,
                    sigqueue_cache_deferred: true,
                    lifecycle: final(self).lifecycle,
                    ..*old(self)
                })
            },
            old(self).lifecycle@ != State::Base || slub_subsystem_state != State::Ready || kmalloc_caches.lifecycle@ != State::Ready  ==> {
                &&& r == Err::<(), EventError>(
                    condition_error(
                        LifecycleEvent::Preset,
                        old(self).lifecycle@,
                        State::Base,
                        State::Prepared,
                    ),
                )
                &&& *final(self) == *old(self)
            },
    {
        if self.lifecycle.state() != State::Base || slub_subsystem_state != State::Ready || kmalloc_caches.state() != State::Ready  {
            return failed_condition(
                LifecycleEvent::Preset,
                self.lifecycle.state(),
                State::Base,
                State::Prepared,
            );
        }
        self.sighand_cache_ready = true;
        self.signal_struct_cache_ready = true;
        self.sigqueue_cache_deferred = true;
        self.lifecycle.transition(LifecycleEvent::Preset, State::Base, State::Prepared)
    }

}

pub struct TaskFileContext {
    pub lifecycle: Lifecycle,
    pub files_struct_cache_ready: bool,
    pub fs_struct_cache_ready: bool,
    pub vfs_runtime_deferred: bool,
}

impl TaskFileContext {
    pub fn new() -> (s: Self)
        ensures
            s.lifecycle@ == State::Base,
            !s.files_struct_cache_ready,
            !s.fs_struct_cache_ready,
            s.vfs_runtime_deferred,
    {
        Self {
            lifecycle: Lifecycle::new(State::Base),
            files_struct_cache_ready: false,
            fs_struct_cache_ready: false,
            vfs_runtime_deferred: true,
        }
    }

    pub fn state(&self) -> (r: State)
        ensures
            r == self.lifecycle@,
    {
        self.lifecycle.state()
    }

    pub fn files_struct_cache_ready(&self) -> (r: bool)
        ensures
            r == self.files_struct_cache_ready,
    {
        self.files_struct_cache_ready
    }

    pub fn fs_struct_cache_ready(&self) -> (r: bool)
        ensures
            r == self.fs_struct_cache_ready,
    {
        self.fs_struct_cache_ready
    }

    pub fn vfs_runtime_deferred(&self) -> (r: bool)
        ensures
            r == self.vfs_runtime_deferred,
    {
        self.vfs_runtime_deferred
    }

    pub fn preset(&mut self, slub_subsystem_state: State, kmalloc_caches: &KmallocCaches) -> (r: EventResult)
        ensures
            !(old(self).lifecycle@ != State::Base || slub_subsystem_state != State::Ready || kmalloc_caches.lifecycle@ != State::Ready ) ==> {
                &&& r is Ok
                &&& final(self).lifecycle@ == State::Prepared
                &&& *final(self) == (TaskFileContext {
                    files_struct_cache_ready: true,
                    fs_struct_cache_ready: true,
                    vfs_runtime_deferred: true,
                    lifecycle: final(self).lifecycle,
                    ..*old(self)
                })
            },
            old(self).lifecycle@ != State::Base || slub_subsystem_state != State::Ready || kmalloc_caches.lifecycle@ != State::Ready  ==> {
                &&& r == Err::<(), EventError>(
                    condition_error(
                        LifecycleEvent::Preset,
                        old(self).lifecycle@,
                        State::Base,
                        State::Prepared,
                    ),
                )
                &&& *final(self) == *old(self)
            },
    {
        if self.lifecycle.state() != State::Base || slub_subsystem_state != State::Ready || kmalloc_caches.state() != State::Ready  {
            return failed_condition(
                LifecycleEvent::Preset,
                self.lifecycle.state(),
                State::Base,
                State::Prepared,
            );
        }
        self.files_struct_cache_ready = true;
        self.fs_struct_cache_ready = true;
        self.vfs_runtime_deferred = true;
        self.lifecycle.transition(LifecycleEvent::Preset, State::Base, State::Prepared)
    }

}

pub struct VmaCore {
    pub lifecycle: Lifecycle,
    pub vm_area_struct_cache_ready: bool,
    pub per_vma_lock_cache_ready: bool,
    pub vm_committed_as_counter_ready: bool,
    pub runtime_mapping_deferred: bool,
}

impl VmaCore {
    pub fn new() -> (s: Self)
        ensures
            s.lifecycle@ == State::Base,
            !s.vm_area_struct_cache_ready,
            !s.per_vma_lock_cache_ready,
            !s.vm_committed_as_counter_ready,
            s.runtime_mapping_deferred,
    {
        Self {
            lifecycle: Lifecycle::new(State::Base),
            vm_area_struct_cache_ready: false,
            per_vma_lock_cache_ready: false,
            vm_committed_as_counter_ready: false,
            runtime_mapping_deferred: true,
        }
    }

    pub fn state(&self) -> (r: State)
        ensures
            r == self.lifecycle@,
    {
        self.lifecycle.state()
    }

    pub fn vm_area_struct_cache_ready(&self) -> (r: bool)
        ensures
            r == self.vm_area_struct_cache_ready,
    {
        self.vm_area_struct_cache_ready
    }

    pub fn per_vma_lock_cache_ready(&self) -> (r: bool)
        ensures
            r == self.per_vma_lock_cache_ready,
    {
        self.per_vma_lock_cache_ready
    }

    pub fn vm_committed_as_counter_ready(&self) -> (r: bool)
        ensures
            r == self.vm_committed_as_counter_ready,
    {
        self.vm_committed_as_counter_ready
    }

    pub fn runtime_mapping_deferred(&self) -> (r: bool)
        ensures
            r == self.runtime_mapping_deferred,
    {
        self.runtime_mapping_deferred
    }

    pub fn preset(&mut self, mm_struct_cache: &MmStructCache, anon_vma_core: &AnonVmaCore, slub_subsystem_state: State, per_cpu_storage: &PerCpuStorage) -> (r: EventResult)
        ensures
            !(old(self).lifecycle@ != State::Base || mm_struct_cache.lifecycle@ != State::Ready || anon_vma_core.lifecycle@ != State::Ready || slub_subsystem_state != State::Ready || per_cpu_storage.lifecycle@ != State::Ready ) ==> {
                &&& r is Ok
                &&& final(self).lifecycle@ == State::Prepared
                &&& *final(self) == (VmaCore {
                    vm_area_struct_cache_ready: true,
                    per_vma_lock_cache_ready: true,
                    vm_committed_as_counter_ready: true,
                    runtime_mapping_deferred: true,
                    lifecycle: final(self).lifecycle,
                    ..*old(self)
                })
            },
            old(self).lifecycle@ != State::Base || mm_struct_cache.lifecycle@ != State::Ready || anon_vma_core.lifecycle@ != State::Ready || slub_subsystem_state != State::Ready || per_cpu_storage.lifecycle@ != State::Ready  ==> {
                &&& r == Err::<(), EventError>(
                    condition_error(
                        LifecycleEvent::Preset,
                        old(self).lifecycle@,
                        State::Base,
                        State::Prepared,
                    ),
                )
                &&& *final(self) == *old(self)
            },
    {
        if self.lifecycle.state() != State::Base || mm_struct_cache.state() != State::Ready || anon_vma_core.state() != State::Ready || slub_subsystem_state != State::Ready || per_cpu_storage.state() != State::Ready  {
            return failed_condition(
                LifecycleEvent::Preset,
                self.lifecycle.state(),
                State::Base,
                State::Prepared,
            );
        }
        self.vm_area_struct_cache_ready = true;
        self.per_vma_lock_cache_ready = true;
        self.vm_committed_as_counter_ready = true;
        self.runtime_mapping_deferred = true;
        self.lifecycle.transition(LifecycleEvent::Preset, State::Base, State::Prepared)
    }

}

pub struct NsProxy {
    pub lifecycle: Lifecycle,
    pub nsproxy_cache_ready: bool,
    pub runtime_refs_deferred: bool,
}

impl NsProxy {
    pub fn new() -> (s: Self)
        ensures
            s.lifecycle@ == State::Base,
            !s.nsproxy_cache_ready,
            s.runtime_refs_deferred,
    {
        Self {
            lifecycle: Lifecycle::new(State::Base),
            nsproxy_cache_ready: false,
            runtime_refs_deferred: true,
        }
    }

    pub fn state(&self) -> (r: State)
        ensures
            r == self.lifecycle@,
    {
        self.lifecycle.state()
    }

    pub fn nsproxy_cache_ready(&self) -> (r: bool)
        ensures
            r == self.nsproxy_cache_ready,
    {
        self.nsproxy_cache_ready
    }

    pub fn runtime_refs_deferred(&self) -> (r: bool)
        ensures
            r == self.runtime_refs_deferred,
    {
        self.runtime_refs_deferred
    }

    pub fn preset(&mut self, slub_subsystem_state: State, kmalloc_caches: &KmallocCaches) -> (r: EventResult)
        ensures
            !(old(self).lifecycle@ != State::Base || slub_subsystem_state != State::Ready || kmalloc_caches.lifecycle@ != State::Ready ) ==> {
                &&& r is Ok
                &&& final(self).lifecycle@ == State::Prepared
                &&& *final(self) == (NsProxy {
                    nsproxy_cache_ready: true,
                    runtime_refs_deferred: true,
                    lifecycle: final(self).lifecycle,
                    ..*old(self)
                })
            },
            old(self).lifecycle@ != State::Base || slub_subsystem_state != State::Ready || kmalloc_caches.lifecycle@ != State::Ready  ==> {
                &&& r == Err::<(), EventError>(
                    condition_error(
                        LifecycleEvent::Preset,
                        old(self).lifecycle@,
                        State::Base,
                        State::Prepared,
                    ),
                )
                &&& *final(self) == *old(self)
            },
    {
        if self.lifecycle.state() != State::Base || slub_subsystem_state != State::Ready || kmalloc_caches.state() != State::Ready  {
            return failed_condition(
                LifecycleEvent::Preset,
                self.lifecycle.state(),
                State::Base,
                State::Prepared,
            );
        }
        self.nsproxy_cache_ready = true;
        self.runtime_refs_deferred = true;
        self.lifecycle.transition(LifecycleEvent::Preset, State::Base, State::Prepared)
    }

}

pub struct UtsNamespace {
    pub lifecycle: Lifecycle,
    pub cache_ready: bool,
    pub static_root_not_created_here: bool,
    pub runtime_ops_deferred: bool,
}

impl UtsNamespace {
    pub fn new() -> (s: Self)
        ensures
            s.lifecycle@ == State::Base,
            !s.cache_ready,
            s.static_root_not_created_here,
            s.runtime_ops_deferred,
    {
        Self {
            lifecycle: Lifecycle::new(State::Base),
            cache_ready: false,
            static_root_not_created_here: true,
            runtime_ops_deferred: true,
        }
    }

    pub fn state(&self) -> (r: State)
        ensures
            r == self.lifecycle@,
    {
        self.lifecycle.state()
    }

    pub fn cache_ready(&self) -> (r: bool)
        ensures
            r == self.cache_ready,
    {
        self.cache_ready
    }

    pub fn static_root_not_created_here(&self) -> (r: bool)
        ensures
            r == self.static_root_not_created_here,
    {
        self.static_root_not_created_here
    }

    pub fn runtime_ops_deferred(&self) -> (r: bool)
        ensures
            r == self.runtime_ops_deferred,
    {
        self.runtime_ops_deferred
    }

    pub fn preset(&mut self, ns_proxy: &NsProxy, slub_subsystem_state: State) -> (r: EventResult)
        ensures
            !(old(self).lifecycle@ != State::Base || ns_proxy.lifecycle@ != State::Prepared || slub_subsystem_state != State::Ready ) ==> {
                &&& r is Ok
                &&& final(self).lifecycle@ == State::Prepared
                &&& *final(self) == (UtsNamespace {
                    cache_ready: true,
                    static_root_not_created_here: true,
                    runtime_ops_deferred: true,
                    lifecycle: final(self).lifecycle,
                    ..*old(self)
                })
            },
            old(self).lifecycle@ != State::Base || ns_proxy.lifecycle@ != State::Prepared || slub_subsystem_state != State::Ready  ==> {
                &&& r == Err::<(), EventError>(
                    condition_error(
                        LifecycleEvent::Preset,
                        old(self).lifecycle@,
                        State::Base,
                        State::Prepared,
                    ),
                )
                &&& *final(self) == *old(self)
            },
    {
        if self.lifecycle.state() != State::Base || ns_proxy.state() != State::Prepared || slub_subsystem_state != State::Ready  {
            return failed_condition(
                LifecycleEvent::Preset,
                self.lifecycle.state(),
                State::Base,
                State::Prepared,
            );
        }
        self.cache_ready = true;
        self.static_root_not_created_here = true;
        self.runtime_ops_deferred = true;
        self.lifecycle.transition(LifecycleEvent::Preset, State::Base, State::Prepared)
    }

}

pub struct KeyringCore {
    pub lifecycle: Lifecycle,
    pub key_cache_ready: bool,
    pub builtin_key_type_count: usize,
    pub root_key_user_tracking_ready: bool,
    pub persistent_keyrings_trimmed: bool,
}

impl KeyringCore {
    pub fn new() -> (s: Self)
        ensures
            s.lifecycle@ == State::Base,
            !s.key_cache_ready,
            s.builtin_key_type_count == 0,
            !s.root_key_user_tracking_ready,
            s.persistent_keyrings_trimmed,
    {
        Self {
            lifecycle: Lifecycle::new(State::Base),
            key_cache_ready: false,
            builtin_key_type_count: 0,
            root_key_user_tracking_ready: false,
            persistent_keyrings_trimmed: true,
        }
    }

    pub fn state(&self) -> (r: State)
        ensures
            r == self.lifecycle@,
    {
        self.lifecycle.state()
    }

    pub fn key_cache_ready(&self) -> (r: bool)
        ensures
            r == self.key_cache_ready,
    {
        self.key_cache_ready
    }

    pub fn builtin_key_type_count(&self) -> (r: usize)
        ensures
            r == self.builtin_key_type_count,
    {
        self.builtin_key_type_count
    }

    pub fn root_key_user_tracking_ready(&self) -> (r: bool)
        ensures
            r == self.root_key_user_tracking_ready,
    {
        self.root_key_user_tracking_ready
    }

    pub fn persistent_keyrings_trimmed(&self) -> (r: bool)
        ensures
            r == self.persistent_keyrings_trimmed,
    {
        self.persistent_keyrings_trimmed
    }

    pub fn setup(&mut self, credential_core: &CredentialCore, slub_subsystem_state: State) -> (r: EventResult)
        ensures
            !(old(self).lifecycle@ != State::Base || credential_core.lifecycle@ != State::Prepared || slub_subsystem_state != State::Ready ) ==> {
                &&& r is Ok
                &&& final(self).lifecycle@ == State::Ready
                &&& *final(self) == (KeyringCore {
                    key_cache_ready: true,
                    builtin_key_type_count: BUILTIN_KEY_TYPE_COUNT,
                    root_key_user_tracking_ready: true,
                    persistent_keyrings_trimmed: true,
                    lifecycle: final(self).lifecycle,
                    ..*old(self)
                })
            },
            old(self).lifecycle@ != State::Base || credential_core.lifecycle@ != State::Prepared || slub_subsystem_state != State::Ready  ==> {
                &&& r == Err::<(), EventError>(
                    condition_error(
                        LifecycleEvent::Setup,
                        old(self).lifecycle@,
                        State::Base,
                        State::Ready,
                    ),
                )
                &&& *final(self) == *old(self)
            },
    {
        if self.lifecycle.state() != State::Base || credential_core.state() != State::Prepared || slub_subsystem_state != State::Ready  {
            return failed_condition(
                LifecycleEvent::Setup,
                self.lifecycle.state(),
                State::Base,
                State::Ready,
            );
        }
        self.key_cache_ready = true;
        self.builtin_key_type_count = BUILTIN_KEY_TYPE_COUNT;
        self.root_key_user_tracking_ready = true;
        self.persistent_keyrings_trimmed = true;
        self.lifecycle.transition(LifecycleEvent::Setup, State::Base, State::Ready)
    }

}

pub struct SecurityCore {
    pub lifecycle: Lifecycle,
    pub ordered_lsm_count: usize,
    pub blob_layout_ready: bool,
    pub hook_dispatcher_ready: bool,
    pub capability_hook_count: usize,
    pub optional_lsms_deferred: bool,
}

impl SecurityCore {
    pub fn new() -> (s: Self)
        ensures
            s.lifecycle@ == State::Base,
            s.ordered_lsm_count == 0,
            !s.blob_layout_ready,
            !s.hook_dispatcher_ready,
            s.capability_hook_count == 0,
            s.optional_lsms_deferred,
    {
        Self {
            lifecycle: Lifecycle::new(State::Base),
            ordered_lsm_count: 0,
            blob_layout_ready: false,
            hook_dispatcher_ready: false,
            capability_hook_count: 0,
            optional_lsms_deferred: true,
        }
    }

    pub fn state(&self) -> (r: State)
        ensures
            r == self.lifecycle@,
    {
        self.lifecycle.state()
    }

    pub fn ordered_lsm_count(&self) -> (r: usize)
        ensures
            r == self.ordered_lsm_count,
    {
        self.ordered_lsm_count
    }

    pub fn blob_layout_ready(&self) -> (r: bool)
        ensures
            r == self.blob_layout_ready,
    {
        self.blob_layout_ready
    }

    pub fn hook_dispatcher_ready(&self) -> (r: bool)
        ensures
            r == self.hook_dispatcher_ready,
    {
        self.hook_dispatcher_ready
    }

    pub fn capability_hook_count(&self) -> (r: usize)
        ensures
            r == self.capability_hook_count,
    {
        self.capability_hook_count
    }

    pub fn optional_lsms_deferred(&self) -> (r: bool)
        ensures
            r == self.optional_lsms_deferred,
    {
        self.optional_lsms_deferred
    }

    pub fn setup(&mut self, credential_core: &CredentialCore, keyring_core: &KeyringCore, slub_subsystem_state: State, static_branch_state: State) -> (r: EventResult)
        ensures
            !(old(self).lifecycle@ != State::Base || credential_core.lifecycle@ != State::Prepared || keyring_core.lifecycle@ != State::Ready || slub_subsystem_state != State::Ready || static_branch_state != State::Ready ) ==> {
                &&& r is Ok
                &&& final(self).lifecycle@ == State::Ready
                &&& *final(self) == (SecurityCore {
                    ordered_lsm_count: BUILTIN_LSM_COUNT,
                    blob_layout_ready: true,
                    hook_dispatcher_ready: true,
                    capability_hook_count: CAPABILITY_HOOK_COUNT,
                    optional_lsms_deferred: true,
                    lifecycle: final(self).lifecycle,
                    ..*old(self)
                })
            },
            old(self).lifecycle@ != State::Base || credential_core.lifecycle@ != State::Prepared || keyring_core.lifecycle@ != State::Ready || slub_subsystem_state != State::Ready || static_branch_state != State::Ready  ==> {
                &&& r == Err::<(), EventError>(
                    condition_error(
                        LifecycleEvent::Setup,
                        old(self).lifecycle@,
                        State::Base,
                        State::Ready,
                    ),
                )
                &&& *final(self) == *old(self)
            },
    {
        if self.lifecycle.state() != State::Base || credential_core.state() != State::Prepared || keyring_core.state() != State::Ready || slub_subsystem_state != State::Ready || static_branch_state != State::Ready  {
            return failed_condition(
                LifecycleEvent::Setup,
                self.lifecycle.state(),
                State::Base,
                State::Ready,
            );
        }
        self.ordered_lsm_count = BUILTIN_LSM_COUNT;
        self.blob_layout_ready = true;
        self.hook_dispatcher_ready = true;
        self.capability_hook_count = CAPABILITY_HOOK_COUNT;
        self.optional_lsms_deferred = true;
        self.lifecycle.transition(LifecycleEvent::Setup, State::Base, State::Ready)
    }

}

pub struct ProcessPrepareTrimmedPaths {
    pub lifecycle: Lifecycle,
    pub x86_efi_runtime_switch_trimmed_noop: bool,
    pub x86_efi_runtime_switch_trimmed_because_arch_riscv: bool,
    pub shadow_call_stack_init_trimmed_noop: bool,
    pub shadow_call_stack_trimmed_because_config_shadow_call_stack_disabled: bool,
    pub lockdep_init_task_trimmed_noop: bool,
    pub lockdep_init_task_trimmed_because_config_lockdep_disabled: bool,
    pub dbg_late_init_trimmed_noop: bool,
    pub dbg_late_init_trimmed_because_config_kgdb_disabled: bool,
    pub net_namespace_deferred: bool,
    pub net_namespace_deferred_even_if_config_net_ns_enabled: bool,
    pub pagecache_deferred: bool,
    pub pagecache_waitqueue_table_deferred: bool,
    pub signal_core_setup_deferred: bool,
    pub seq_file_core_deferred: bool,
    pub procfs_deferred: bool,
    pub nsfs_deferred: bool,
    pub pidfs_deferred: bool,
    pub vfs_pseudo_filesystems_deferred: bool,
    pub bdev_chrdev_init_deferred: bool,
    pub cpuset_init_trimmed_noop: bool,
    pub cpuset_trimmed_because_config_cpusets_disabled: bool,
    pub cgroup_init_trimmed_noop: bool,
    pub cgroup_trimmed_because_config_cgroups_disabled: bool,
    pub taskstats_init_trimmed_noop: bool,
    pub taskstats_trimmed_because_config_taskstats_disabled: bool,
    pub delayacct_init_trimmed_noop: bool,
    pub delayacct_trimmed_because_config_task_delay_acct_disabled: bool,
    pub acpi_subsystem_init_trimmed_noop: bool,
    pub acpi_trimmed_because_config_acpi_disabled: bool,
    pub arch_post_acpi_subsys_init_trimmed_noop: bool,
    pub kcsan_init_trimmed_noop: bool,
    pub kcsan_trimmed_because_config_kcsan_disabled: bool,
    pub rcu_tasks_generic_out_of_scope: bool,
    pub rcu_tasks_generic_belongs_to_kernel_init_freeable: bool,
    pub position_preserved: bool,
}

impl ProcessPrepareTrimmedPaths {
    pub fn new() -> (s: Self)
        ensures
            s.lifecycle@ == State::Base,
            !s.x86_efi_runtime_switch_trimmed_noop,
            !s.x86_efi_runtime_switch_trimmed_because_arch_riscv,
            !s.shadow_call_stack_init_trimmed_noop,
            !s.shadow_call_stack_trimmed_because_config_shadow_call_stack_disabled,
            !s.lockdep_init_task_trimmed_noop,
            !s.lockdep_init_task_trimmed_because_config_lockdep_disabled,
            !s.dbg_late_init_trimmed_noop,
            !s.dbg_late_init_trimmed_because_config_kgdb_disabled,
            !s.net_namespace_deferred,
            !s.net_namespace_deferred_even_if_config_net_ns_enabled,
            !s.pagecache_deferred,
            !s.pagecache_waitqueue_table_deferred,
            !s.signal_core_setup_deferred,
            !s.seq_file_core_deferred,
            !s.procfs_deferred,
            !s.nsfs_deferred,
            !s.pidfs_deferred,
            !s.vfs_pseudo_filesystems_deferred,
            !s.bdev_chrdev_init_deferred,
            !s.cpuset_init_trimmed_noop,
            !s.cpuset_trimmed_because_config_cpusets_disabled,
            !s.cgroup_init_trimmed_noop,
            !s.cgroup_trimmed_because_config_cgroups_disabled,
            !s.taskstats_init_trimmed_noop,
            !s.taskstats_trimmed_because_config_taskstats_disabled,
            !s.delayacct_init_trimmed_noop,
            !s.delayacct_trimmed_because_config_task_delay_acct_disabled,
            !s.acpi_subsystem_init_trimmed_noop,
            !s.acpi_trimmed_because_config_acpi_disabled,
            !s.arch_post_acpi_subsys_init_trimmed_noop,
            !s.kcsan_init_trimmed_noop,
            !s.kcsan_trimmed_because_config_kcsan_disabled,
            !s.rcu_tasks_generic_out_of_scope,
            !s.rcu_tasks_generic_belongs_to_kernel_init_freeable,
            !s.position_preserved,
    {
        Self {
            lifecycle: Lifecycle::new(State::Base),
            x86_efi_runtime_switch_trimmed_noop: false,
            x86_efi_runtime_switch_trimmed_because_arch_riscv: false,
            shadow_call_stack_init_trimmed_noop: false,
            shadow_call_stack_trimmed_because_config_shadow_call_stack_disabled: false,
            lockdep_init_task_trimmed_noop: false,
            lockdep_init_task_trimmed_because_config_lockdep_disabled: false,
            dbg_late_init_trimmed_noop: false,
            dbg_late_init_trimmed_because_config_kgdb_disabled: false,
            net_namespace_deferred: false,
            net_namespace_deferred_even_if_config_net_ns_enabled: false,
            pagecache_deferred: false,
            pagecache_waitqueue_table_deferred: false,
            signal_core_setup_deferred: false,
            seq_file_core_deferred: false,
            procfs_deferred: false,
            nsfs_deferred: false,
            pidfs_deferred: false,
            vfs_pseudo_filesystems_deferred: false,
            bdev_chrdev_init_deferred: false,
            cpuset_init_trimmed_noop: false,
            cpuset_trimmed_because_config_cpusets_disabled: false,
            cgroup_init_trimmed_noop: false,
            cgroup_trimmed_because_config_cgroups_disabled: false,
            taskstats_init_trimmed_noop: false,
            taskstats_trimmed_because_config_taskstats_disabled: false,
            delayacct_init_trimmed_noop: false,
            delayacct_trimmed_because_config_task_delay_acct_disabled: false,
            acpi_subsystem_init_trimmed_noop: false,
            acpi_trimmed_because_config_acpi_disabled: false,
            arch_post_acpi_subsys_init_trimmed_noop: false,
            kcsan_init_trimmed_noop: false,
            kcsan_trimmed_because_config_kcsan_disabled: false,
            rcu_tasks_generic_out_of_scope: false,
            rcu_tasks_generic_belongs_to_kernel_init_freeable: false,
            position_preserved: false,
        }
    }

    pub fn state(&self) -> (r: State)
        ensures
            r == self.lifecycle@,
    {
        self.lifecycle.state()
    }

    pub fn x86_efi_runtime_switch_trimmed_noop(&self) -> (r: bool)
        ensures
            r == self.x86_efi_runtime_switch_trimmed_noop,
    {
        self.x86_efi_runtime_switch_trimmed_noop
    }

    pub fn x86_efi_runtime_switch_trimmed_because_arch_riscv(&self) -> (r: bool)
        ensures
            r == self.x86_efi_runtime_switch_trimmed_because_arch_riscv,
    {
        self.x86_efi_runtime_switch_trimmed_because_arch_riscv
    }

    pub fn shadow_call_stack_init_trimmed_noop(&self) -> (r: bool)
        ensures
            r == self.shadow_call_stack_init_trimmed_noop,
    {
        self.shadow_call_stack_init_trimmed_noop
    }

    pub fn shadow_call_stack_trimmed_because_config_shadow_call_stack_disabled(&self) -> (r: bool)
        ensures
            r == self.shadow_call_stack_trimmed_because_config_shadow_call_stack_disabled,
    {
        self.shadow_call_stack_trimmed_because_config_shadow_call_stack_disabled
    }

    pub fn lockdep_init_task_trimmed_noop(&self) -> (r: bool)
        ensures
            r == self.lockdep_init_task_trimmed_noop,
    {
        self.lockdep_init_task_trimmed_noop
    }

    pub fn lockdep_init_task_trimmed_because_config_lockdep_disabled(&self) -> (r: bool)
        ensures
            r == self.lockdep_init_task_trimmed_because_config_lockdep_disabled,
    {
        self.lockdep_init_task_trimmed_because_config_lockdep_disabled
    }

    pub fn dbg_late_init_trimmed_noop(&self) -> (r: bool)
        ensures
            r == self.dbg_late_init_trimmed_noop,
    {
        self.dbg_late_init_trimmed_noop
    }

    pub fn dbg_late_init_trimmed_because_config_kgdb_disabled(&self) -> (r: bool)
        ensures
            r == self.dbg_late_init_trimmed_because_config_kgdb_disabled,
    {
        self.dbg_late_init_trimmed_because_config_kgdb_disabled
    }

    pub fn net_namespace_deferred(&self) -> (r: bool)
        ensures
            r == self.net_namespace_deferred,
    {
        self.net_namespace_deferred
    }

    pub fn net_namespace_deferred_even_if_config_net_ns_enabled(&self) -> (r: bool)
        ensures
            r == self.net_namespace_deferred_even_if_config_net_ns_enabled,
    {
        self.net_namespace_deferred_even_if_config_net_ns_enabled
    }

    pub fn pagecache_deferred(&self) -> (r: bool)
        ensures
            r == self.pagecache_deferred,
    {
        self.pagecache_deferred
    }

    pub fn pagecache_waitqueue_table_deferred(&self) -> (r: bool)
        ensures
            r == self.pagecache_waitqueue_table_deferred,
    {
        self.pagecache_waitqueue_table_deferred
    }

    pub fn signal_core_setup_deferred(&self) -> (r: bool)
        ensures
            r == self.signal_core_setup_deferred,
    {
        self.signal_core_setup_deferred
    }

    pub fn seq_file_core_deferred(&self) -> (r: bool)
        ensures
            r == self.seq_file_core_deferred,
    {
        self.seq_file_core_deferred
    }

    pub fn procfs_deferred(&self) -> (r: bool)
        ensures
            r == self.procfs_deferred,
    {
        self.procfs_deferred
    }

    pub fn nsfs_deferred(&self) -> (r: bool)
        ensures
            r == self.nsfs_deferred,
    {
        self.nsfs_deferred
    }

    pub fn pidfs_deferred(&self) -> (r: bool)
        ensures
            r == self.pidfs_deferred,
    {
        self.pidfs_deferred
    }

    pub fn vfs_pseudo_filesystems_deferred(&self) -> (r: bool)
        ensures
            r == self.vfs_pseudo_filesystems_deferred,
    {
        self.vfs_pseudo_filesystems_deferred
    }

    pub fn bdev_chrdev_init_deferred(&self) -> (r: bool)
        ensures
            r == self.bdev_chrdev_init_deferred,
    {
        self.bdev_chrdev_init_deferred
    }

    pub fn cpuset_init_trimmed_noop(&self) -> (r: bool)
        ensures
            r == self.cpuset_init_trimmed_noop,
    {
        self.cpuset_init_trimmed_noop
    }

    pub fn cpuset_trimmed_because_config_cpusets_disabled(&self) -> (r: bool)
        ensures
            r == self.cpuset_trimmed_because_config_cpusets_disabled,
    {
        self.cpuset_trimmed_because_config_cpusets_disabled
    }

    pub fn cgroup_init_trimmed_noop(&self) -> (r: bool)
        ensures
            r == self.cgroup_init_trimmed_noop,
    {
        self.cgroup_init_trimmed_noop
    }

    pub fn cgroup_trimmed_because_config_cgroups_disabled(&self) -> (r: bool)
        ensures
            r == self.cgroup_trimmed_because_config_cgroups_disabled,
    {
        self.cgroup_trimmed_because_config_cgroups_disabled
    }

    pub fn taskstats_init_trimmed_noop(&self) -> (r: bool)
        ensures
            r == self.taskstats_init_trimmed_noop,
    {
        self.taskstats_init_trimmed_noop
    }

    pub fn taskstats_trimmed_because_config_taskstats_disabled(&self) -> (r: bool)
        ensures
            r == self.taskstats_trimmed_because_config_taskstats_disabled,
    {
        self.taskstats_trimmed_because_config_taskstats_disabled
    }

    pub fn delayacct_init_trimmed_noop(&self) -> (r: bool)
        ensures
            r == self.delayacct_init_trimmed_noop,
    {
        self.delayacct_init_trimmed_noop
    }

    pub fn delayacct_trimmed_because_config_task_delay_acct_disabled(&self) -> (r: bool)
        ensures
            r == self.delayacct_trimmed_because_config_task_delay_acct_disabled,
    {
        self.delayacct_trimmed_because_config_task_delay_acct_disabled
    }

    pub fn acpi_subsystem_init_trimmed_noop(&self) -> (r: bool)
        ensures
            r == self.acpi_subsystem_init_trimmed_noop,
    {
        self.acpi_subsystem_init_trimmed_noop
    }

    pub fn acpi_trimmed_because_config_acpi_disabled(&self) -> (r: bool)
        ensures
            r == self.acpi_trimmed_because_config_acpi_disabled,
    {
        self.acpi_trimmed_because_config_acpi_disabled
    }

    pub fn arch_post_acpi_subsys_init_trimmed_noop(&self) -> (r: bool)
        ensures
            r == self.arch_post_acpi_subsys_init_trimmed_noop,
    {
        self.arch_post_acpi_subsys_init_trimmed_noop
    }

    pub fn kcsan_init_trimmed_noop(&self) -> (r: bool)
        ensures
            r == self.kcsan_init_trimmed_noop,
    {
        self.kcsan_init_trimmed_noop
    }

    pub fn kcsan_trimmed_because_config_kcsan_disabled(&self) -> (r: bool)
        ensures
            r == self.kcsan_trimmed_because_config_kcsan_disabled,
    {
        self.kcsan_trimmed_because_config_kcsan_disabled
    }

    pub fn rcu_tasks_generic_out_of_scope(&self) -> (r: bool)
        ensures
            r == self.rcu_tasks_generic_out_of_scope,
    {
        self.rcu_tasks_generic_out_of_scope
    }

    pub fn rcu_tasks_generic_belongs_to_kernel_init_freeable(&self) -> (r: bool)
        ensures
            r == self.rcu_tasks_generic_belongs_to_kernel_init_freeable,
    {
        self.rcu_tasks_generic_belongs_to_kernel_init_freeable
    }

    pub fn position_preserved(&self) -> (r: bool)
        ensures
            r == self.position_preserved,
    {
        self.position_preserved
    }

    /// Records the paths of process preparation that this configuration trims or defers.
    pub fn preset(
        &mut self,
        config: &Config,
        task_creation_core: &TaskCreationCore,
        signal_core: &SignalCore,
        vfs_core_state: State,
        vfs_page_cache_deferred: bool,
    ) -> (r: EventResult)
        ensures
            !trimmed_paths_allowed(
                *old(self),
                *config,
                *task_creation_core,
                *signal_core,
                vfs_core_state,
                vfs_page_cache_deferred,
            ) ==> {
                &&& r == Err::<(), EventError>(
                    condition_error(
                        LifecycleEvent::Preset,
                        old(self).lifecycle@,
                        State::Base,
                        State::Prepared,
                    ),
                )
                &&& *final(self) == *old(self)
            },
            trimmed_paths_allowed(
                *old(self),
                *config,
                *task_creation_core,
                *signal_core,
                vfs_core_state,
                vfs_page_cache_deferred,
            ) ==> {
                &&& r is Ok
                &&& final(self).lifecycle@ == State::Prepared
                &&& final(self).x86_efi_runtime_switch_trimmed_noop
                &&& final(self).x86_efi_runtime_switch_trimmed_because_arch_riscv
                &&& final(self).shadow_call_stack_init_trimmed_noop
                &&& final(self).shadow_call_stack_trimmed_because_config_shadow_call_stack_disabled
                &&& final(self).lockdep_init_task_trimmed_noop
                &&& final(self).lockdep_init_task_trimmed_because_config_lockdep_disabled
                &&& final(self).dbg_late_init_trimmed_noop
                &&& final(self).dbg_late_init_trimmed_because_config_kgdb_disabled
                &&& final(self).net_namespace_deferred
                &&& final(self).net_namespace_deferred_even_if_config_net_ns_enabled
                &&& final(self).pagecache_deferred
                &&& final(self).pagecache_waitqueue_table_deferred
                &&& final(self).signal_core_setup_deferred
                &&& final(self).seq_file_core_deferred
                &&& final(self).procfs_deferred
                &&& final(self).nsfs_deferred
                &&& final(self).pidfs_deferred
                &&& final(self).vfs_pseudo_filesystems_deferred
                &&& final(self).bdev_chrdev_init_deferred
                &&& final(self).cpuset_init_trimmed_noop
                &&& final(self).cpuset_trimmed_because_config_cpusets_disabled
                &&& final(self).cgroup_init_trimmed_noop
                &&& final(self).cgroup_trimmed_because_config_cgroups_disabled
                &&& final(self).taskstats_init_trimmed_noop
                &&& final(self).taskstats_trimmed_because_config_taskstats_disabled
                &&& final(self).delayacct_init_trimmed_noop
                &&& final(self).delayacct_trimmed_because_config_task_delay_acct_disabled
                &&& final(self).acpi_subsystem_init_trimmed_noop
                &&& final(self).acpi_trimmed_because_config_acpi_disabled
                &&& final(self).arch_post_acpi_subsys_init_trimmed_noop
                &&& final(self).kcsan_init_trimmed_noop
                &&& final(self).kcsan_trimmed_because_config_kcsan_disabled
                &&& final(self).rcu_tasks_generic_out_of_scope
                &&& final(self).rcu_tasks_generic_belongs_to_kernel_init_freeable
                &&& final(self).position_preserved
            },
    {
        if self.lifecycle.state() != State::Base || config.state != State::Online
            || config.x86_arch || config.shadow_call_stack_enabled || config.lockdep_enabled
            || config.kgdb_enabled || !config.net_ns_enabled || !config.proc_fs_enabled
            || !config.pid_ns_enabled || config.cpusets_enabled || config.cgroups_enabled
            || config.taskstats_enabled || config.task_delay_acct_enabled || config.acpi_enabled
            || config.kcsan_enabled || task_creation_core.state() != State::Ready
            || signal_core.state() != State::Prepared || vfs_core_state != State::Ready
            || !vfs_page_cache_deferred {
            return failed_condition(
                LifecycleEvent::Preset,
                self.lifecycle.state(),
                State::Base,
                State::Prepared,
            );
        }
        self.x86_efi_runtime_switch_trimmed_noop = true;
        self.x86_efi_runtime_switch_trimmed_because_arch_riscv = true;
        self.shadow_call_stack_init_trimmed_noop = true;
        self.shadow_call_stack_trimmed_because_config_shadow_call_stack_disabled = true;
        self.lockdep_init_task_trimmed_noop = true;
        self.lockdep_init_task_trimmed_because_config_lockdep_disabled = true;
        self.dbg_late_init_trimmed_noop = true;
        self.dbg_late_init_trimmed_because_config_kgdb_disabled = true;
        self.net_namespace_deferred = true;
        self.net_namespace_deferred_even_if_config_net_ns_enabled = true;
        self.pagecache_deferred = true;
        self.pagecache_waitqueue_table_deferred = true;
        self.signal_core_setup_deferred = true;
        self.seq_file_core_deferred = true;
        self.procfs_deferred = true;
        self.nsfs_deferred = true;
        self.pidfs_deferred = true;
        self.vfs_pseudo_filesystems_deferred = true;
        self.bdev_chrdev_init_deferred = true;
        self.cpuset_init_trimmed_noop = true;
        self.cpuset_trimmed_because_config_cpusets_disabled = true;
        self.cgroup_init_trimmed_noop = true;
        self.cgroup_trimmed_because_config_cgroups_disabled = true;
        self.taskstats_init_trimmed_noop = true;
        self.taskstats_trimmed_because_config_taskstats_disabled = true;
        self.delayacct_init_trimmed_noop = true;
        self.delayacct_trimmed_because_config_task_delay_acct_disabled = true;
        self.acpi_subsystem_init_trimmed_noop = true;
        self.acpi_trimmed_because_config_acpi_disabled = true;
        self.arch_post_acpi_subsys_init_trimmed_noop = true;
        self.kcsan_init_trimmed_noop = true;
        self.kcsan_trimmed_because_config_kcsan_disabled = true;
        self.rcu_tasks_generic_out_of_scope = true;
        self.rcu_tasks_generic_belongs_to_kernel_init_freeable = true;
        self.position_preserved = true;
        self.lifecycle.transition(LifecycleEvent::Preset, State::Base, State::Prepared)
    }
}

/// The trimmed paths may be recorded: a RISC-V configuration without the trimmed features,
/// with task creation ready and the page cache deferred.
pub open spec fn trimmed_paths_allowed(
    p: ProcessPrepareTrimmedPaths,
    config: Config,
    task_creation_core: TaskCreationCore,
    signal_core: SignalCore,
    vfs_core_state: State,
    vfs_page_cache_deferred: bool,
) -> bool {
    &&& p.lifecycle@ == State::Base
    &&& config.state == State::Online
    &&& !config.x86_arch
    &&& !config.shadow_call_stack_enabled
    &&& !config.lockdep_enabled
    &&& !config.kgdb_enabled
    &&& config.net_ns_enabled
    &&& config.proc_fs_enabled
    &&& config.pid_ns_enabled
    &&& !config.cpusets_enabled
    &&& !config.cgroups_enabled
    &&& !config.taskstats_enabled
    &&& !config.task_delay_acct_enabled
    &&& !config.acpi_enabled
    &&& !config.kcsan_enabled
    &&& task_creation_core.lifecycle@ == State::Ready
    &&& signal_core.lifecycle@ == State::Prepared
    &&& vfs_core_state == State::Ready
    &&& vfs_page_cache_deferred
}

} // verus!
