use vstd::prelude::*;
use crate::state::{condition_error, failed_condition, EventError, EventResult, Lifecycle, LifecycleEvent, State};

verus! {

pub struct SchedInitTrimmedPaths {
    pub lifecycle: Lifecycle,
    pub poking_init_trimmed_noop: bool,
    pub ftrace_init_trimmed_noop: bool,
    pub ftrace_trimmed_because_mcount_record_disabled: bool,
    pub context_tracking_init_trimmed_noop: bool,
    pub context_tracking_trimmed_because_user_force_disabled: bool,
    pub position_preserved: bool,
}

impl SchedInitTrimmedPaths {
    pub fn new() -> (s: Self)
        ensures
            s.lifecycle@ == State::Base,
            !s.poking_init_trimmed_noop,
            !s.ftrace_init_trimmed_noop,
            !s.ftrace_trimmed_because_mcount_record_disabled,
            !s.context_tracking_init_trimmed_noop,
            !s.context_tracking_trimmed_because_user_force_disabled,
            !s.position_preserved,
    {
        Self {
            lifecycle: Lifecycle::new(State::Base),
            poking_init_trimmed_noop: false,
            ftrace_init_trimmed_noop: false,
            ftrace_trimmed_because_mcount_record_disabled: false,
            context_tracking_init_trimmed_noop: false,
            context_tracking_trimmed_because_user_force_disabled: false,
            position_preserved: false,
        }
    }

    pub fn state(&self) -> (r: State)
        ensures
            r == self.lifecycle@,
    {
        self.lifecycle.state()
    }

    pub fn poking_init_trimmed_noop(&self) -> (r: bool)
        ensures
            r == self.poking_init_trimmed_noop,
    {
        self.poking_init_trimmed_noop
    }

    pub fn ftrace_init_trimmed_noop(&self) -> (r: bool)
        ensures
            r == self.ftrace_init_trimmed_noop,
    {
        self.ftrace_init_trimmed_noop
    }

    pub fn ftrace_trimmed_because_mcount_record_disabled(&self) -> (r: bool)
        ensures
            r == self.ftrace_trimmed_because_mcount_record_disabled,
    {
        self.ftrace_trimmed_because_mcount_record_disabled
    }

    pub fn context_tracking_init_trimmed_noop(&self) -> (r: bool)
        ensures
            r == self.context_tracking_init_trimmed_noop,
    {
        self.context_tracking_init_trimmed_noop
    }

    pub fn context_tracking_trimmed_because_user_force_disabled(&self) -> (r: bool)
        ensures
            r == self.context_tracking_trimmed_because_user_force_disabled,
    {
        self.context_tracking_trimmed_because_user_force_disabled
    }

    pub fn position_preserved(&self) -> (r: bool)
        ensures
            r == self.position_preserved,
    {
        self.position_preserved
    }

    pub fn setup(&mut self, scheduler_state: State, rcu_core_state: State) -> (r: EventResult)
        ensures
            !(old(self).lifecycle@ != State::Base || scheduler_state != State::Online || rcu_core_state != State::Ready ) ==> {
                &&& r == Ok::<(), EventError>(())
                &&& final(self).lifecycle@ == State::Ready
                &&& *final(self) == (SchedInitTrimmedPaths {
                    poking_init_trimmed_noop: true,
                    ftrace_init_trimmed_noop: true,
                    ftrace_trimmed_because_mcount_record_disabled: true,
                    context_tracking_init_trimmed_noop: true,
                    context_tracking_trimmed_because_user_force_disabled: true,
                    position_preserved: true,
                    lifecycle: final(self).lifecycle,
                    ..*old(self)
                })
            },
            old(self).lifecycle@ != State::Base || scheduler_state != State::Online || rcu_core_state != State::Ready  ==> {
                &&& r == Err::<(), EventError>(
                    condition_error(
                        LifecycleEvent::Setup,
                        old(self).lifecycle@,
                        State::Base,
                        State::Ready,
                    ),
                )
                &&& *final(self) == *old(self)
            },
    {
        if self.lifecycle.state() != State::Base || scheduler_state != State::Online || rcu_core_state != State::Ready  {
            return failed_condition(
                LifecycleEvent::Setup,
                self.lifecycle.state(),
                State::Base,
                State::Ready,
            );
        }
        self.poking_init_trimmed_noop = true;
        self.ftrace_init_trimmed_noop = true;
        self.ftrace_trimmed_because_mcount_record_disabled = true;
        self.context_tracking_init_trimmed_noop = true;
        self.context_tracking_trimmed_because_user_force_disabled = true;
        self.position_preserved = true;
        self.lifecycle.transition(LifecycleEvent::Setup, State::Base, State::Ready)
    }
}

} // verus!
