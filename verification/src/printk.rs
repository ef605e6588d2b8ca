//! The printk ring buffer, which keeps the most recent bytes written until they are
//! delivered, and the console registry, which decides where printk output goes and
//! hands the console over from the boot console to the 8250 UART.
use vstd::prelude::*;
use crate::ns16550a::{lemma_ring_advance, lemma_ring_append, ring_view};
use crate::state::{
    condition_error, failed_condition, transition_result, transition_state, EventError, EventResult,
    Lifecycle, LifecycleEvent, State,
};

verus! {

/// Slots of the printk ring; it holds one byte less than this.
pub const BUFFER_SIZE: usize = 4096;

/// Where printk output goes.
#[derive(Clone, Copy, PartialEq, Eq, Structural, Debug)]
pub enum PrintkRoute {
    BufferOnly,
    BootConsole,
    Serial8250,
}

/// Which consoles are registered and whether the handoff to the UART happened.
#[derive(Clone, Copy, PartialEq, Eq, Structural, Debug)]
pub struct ConsoleRegistry {
    pub boot_console_registered: bool,
    pub boot_console_online: bool,
    pub boot_console_unregistered: bool,
    pub boot_console_removed_from_registry: bool,
    pub serial8250_console_registered: bool,
    pub preferred_console_from_stdout: bool,
    pub serial8250_consdev: bool,
    pub serial8250_write_ready: bool,
    pub keep_bootcon: bool,
    pub handoff_complete: bool,
    pub boot_pending_flushed_before_serial_handoff: bool,
    pub legacy_earlycon_drain_blocked_after_handoff: bool,
    pub serial8250_online_trace_emitted: bool,
    pub boot_console_offline_trace_emitted: bool,
    pub serial8250_delivered_records_not_replayed: bool,
    pub route: PrintkRoute,
}

impl ConsoleRegistry {
    /// Whether the serial console has taken over from the boot console.
    pub fn console_handoff_complete(&self) -> (r: bool)
        ensures
            r == self.handoff_complete,
    {
        self.handoff_complete
    }

    pub fn new() -> (r: Self)
        ensures
            !r.boot_console_registered && !r.boot_console_online && !r.handoff_complete,
            !r.serial8250_console_registered && !r.keep_bootcon,
            r.route == PrintkRoute::BufferOnly,
    {
        ConsoleRegistry {
            boot_console_registered: false,
            boot_console_online: false,
            boot_console_unregistered: false,
            boot_console_removed_from_registry: false,
            serial8250_console_registered: false,
            preferred_console_from_stdout: false,
            serial8250_consdev: false,
            serial8250_write_ready: false,
            keep_bootcon: false,
            handoff_complete: false,
            boot_pending_flushed_before_serial_handoff: false,
            legacy_earlycon_drain_blocked_after_handoff: false,
            serial8250_online_trace_emitted: false,
            boot_console_offline_trace_emitted: false,
            serial8250_delivered_records_not_replayed: false,
            route: PrintkRoute::BufferOnly,
        }
    }

    /// Registers the boot console, which then receives printk output.
    pub fn register_boot_console(&mut self)
        ensures
            *final(self) == (ConsoleRegistry {
                boot_console_registered: true,
                boot_console_online: true,
                boot_console_unregistered: false,
                boot_console_removed_from_registry: false,
                route: PrintkRoute::BootConsole,
                ..*old(self)
            }),
    {
        self.boot_console_registered = true;
        self.boot_console_online = true;
        self.boot_console_unregistered = false;
        self.boot_console_removed_from_registry = false;
        self.route = PrintkRoute::BootConsole;
    }

    /// Whether registering the UART console now hands the console over, so that the
    /// bytes pending in the printk buffer must first be flushed to the boot console.
    pub fn serial8250_handoff_pending(&self, preferred_from_stdout: bool) -> (r: bool)
        ensures
            r == (self.boot_console_registered && preferred_from_stdout && !self.handoff_complete),
    {
        self.boot_console_registered && preferred_from_stdout && !self.handoff_complete
    }

    /// Registers the UART console named by `stdout-path`, handing printk over to it; the
    /// boot console goes offline unless it is kept. Refused without a boot console or
    /// when the UART is not the preferred console; accepted again, with no change, once
    /// the handoff is complete. The caller flushes the printk buffer before a handoff.
    pub fn register_serial8250_console(&mut self, preferred_from_stdout: bool) -> (r: bool)
        ensures
            r == (old(self).boot_console_registered && preferred_from_stdout),
            !r || old(self).handoff_complete ==> *final(self) == *old(self),
            r && !old(self).handoff_complete ==> *final(self) == (ConsoleRegistry {
                boot_pending_flushed_before_serial_handoff: true,
                serial8250_console_registered: true,
                preferred_console_from_stdout: true,
                serial8250_consdev: true,
                serial8250_write_ready: true,
                route: PrintkRoute::Serial8250,
                handoff_complete: true,
                legacy_earlycon_drain_blocked_after_handoff: true,
                serial8250_online_trace_emitted: true,
                boot_console_online: old(self).boot_console_online && old(self).keep_bootcon,
                boot_console_unregistered: old(self).boot_console_unregistered || !old(self).keep_bootcon,
                boot_console_removed_from_registry: old(self).boot_console_removed_from_registry
                    || !old(self).keep_bootcon,
                boot_console_offline_trace_emitted: old(self).boot_console_offline_trace_emitted
                    || !old(self).keep_bootcon,
                ..*old(self)
            }),
    {
        if !self.boot_console_registered || !preferred_from_stdout {
            return false;
        }
        if self.handoff_complete {
            return true;
        }
        self.boot_pending_flushed_before_serial_handoff = true;
        self.serial8250_console_registered = true;
        self.preferred_console_from_stdout = true;
        self.serial8250_consdev = true;
        self.serial8250_write_ready = true;
        self.route = PrintkRoute::Serial8250;
        self.handoff_complete = true;
        self.legacy_earlycon_drain_blocked_after_handoff = true;
        self.serial8250_online_trace_emitted = true;
        if !self.keep_bootcon {
            self.boot_console_online = false;
            self.boot_console_unregistered = true;
            self.boot_console_removed_from_registry = true;
            self.boot_console_offline_trace_emitted = true;
        }
        true
    }

    pub fn set_keep_bootcon(&mut self, enabled: bool)
        ensures
            *final(self) == (ConsoleRegistry { keep_bootcon: enabled, ..*old(self) }),
    {
        self.keep_bootcon = enabled;
    }

    /// Notes that bytes written through the UART console were delivered, so the buffer
    /// does not replay them.
    pub fn note_serial8250_delivered(&mut self)
        ensures
            *final(self) == (ConsoleRegistry {
                serial8250_delivered_records_not_replayed: true,
                ..*old(self)
            }),
    {
        self.serial8250_delivered_records_not_replayed = true;
    }

    pub fn route(&self) -> (r: PrintkRoute)
        ensures
            r == self.route,
    {
        self.route
    }

    /// The early console may still drain the buffer until the handoff.
    pub fn earlycon_drain_allowed(&self) -> (r: bool)
        ensures
            r == !self.legacy_earlycon_drain_blocked_after_handoff,
    {
        !self.legacy_earlycon_drain_blocked_after_handoff
    }
}

/// The last `n` elements of `s`, or all of it when it is shorter.
pub open spec fn keep_last(s: Seq<u8>, n: int) -> Seq<u8> {
    if s.len() <= n {
        s
    } else {
        s.skip(s.len() - n)
    }
}

/// What the ring keeps of `s` with room for `n` bytes is the last `min(len, n)` bytes of
/// `s`: nothing is dropped while it fits, and the oldest bytes go first.
pub proof fn lemma_keep_last_is_suffix(s: Seq<u8>, n: int)
    requires
        n >= 0,
    ensures
        keep_last(s, n).len() == (if s.len() <= n { s.len() as int } else { n }),
        forall|k: int|
            0 <= k < keep_last(s, n).len() ==> #[trigger] keep_last(s, n)[k] == s[s.len()
                - keep_last(s, n).len() + k],
{
}

/// The printk ring: `buffer[read..write]`, wrapping, holds the bytes not delivered yet.
pub struct PrintkBuffer {
    pub lifecycle: Lifecycle,
    pub buffer: Vec<u8>,
    pub read: usize,
    pub write: usize,
    pub runtime_ready: bool,
    pub percpu_data_ready: bool,
    pub records_preserved: bool,
    pub setup_local_irq_save_restore_used: bool,
    pub setup_local_irq_guard_bound_to_boot_cpu: bool,
}

/// What the boot CPU's local-interrupt save and restore around the buffer switch
/// reported.
#[derive(Clone, Copy, Debug)]
pub struct LocalIrqSaveRestore {
    pub save_result: EventResult,
    pub restore_result: EventResult,
}

impl PrintkBuffer {
    pub open spec fn wf(&self) -> bool {
        &&& self.buffer@.len() == BUFFER_SIZE
        &&& self.read < BUFFER_SIZE
        &&& self.write < BUFFER_SIZE
    }

    /// How many bytes the ring holds.
    pub open spec fn count(&self) -> int {
        if self.write >= self.read {
            self.write - self.read
        } else {
            self.write + BUFFER_SIZE - self.read
        }
    }

    /// The bytes not delivered yet, oldest first.
    pub open spec fn contents(&self) -> Seq<u8> {
        ring_view(self.buffer@, self.read as int, self.count())
    }

    pub fn new() -> (r: Self)
        ensures
            r.wf(),
            r.lifecycle@ == State::Base,
            r.contents().len() == 0,
            !r.runtime_ready && !r.percpu_data_ready && !r.records_preserved,
            !r.setup_local_irq_save_restore_used && !r.setup_local_irq_guard_bound_to_boot_cpu,
    {
        let mut buffer: Vec<u8> = Vec::new();
        while buffer.len() < BUFFER_SIZE
            invariant
                buffer@.len() <= BUFFER_SIZE,
            decreases BUFFER_SIZE - buffer@.len(),
        {
            buffer.push(0);
        }
        let r = PrintkBuffer {
            lifecycle: Lifecycle::new(State::Base),
            buffer,
            read: 0,
            write: 0,
            runtime_ready: false,
            percpu_data_ready: false,
            records_preserved: false,
            setup_local_irq_save_restore_used: false,
            setup_local_irq_guard_bound_to_boot_cpu: false,
        };
        assert(r.contents() =~= Seq::<u8>::empty());
        r
    }

    pub fn preset(&mut self) -> (r: EventResult)
        ensures
            r == transition_result(LifecycleEvent::Preset, old(self).lifecycle@, State::Base, State::Prepared),
            final(self).lifecycle@ == transition_state(old(self).lifecycle@, State::Base, State::Prepared),
            final(self).buffer == old(self).buffer && final(self).read == old(self).read
                && final(self).write == old(self).write,
    {
        self.lifecycle.transition(LifecycleEvent::Preset, State::Base, State::Prepared)
    }

    pub open spec fn setup_guard(
        &self,
        memblock_state: State,
        per_cpu_storage_state: State,
        boot_param_state: State,
        local_interrupt_state: State,
        local_interrupts_disabled: bool,
    ) -> bool {
        &&& self.lifecycle@ == State::Prepared
        &&& memblock_state == State::Online
        &&& per_cpu_storage_state == State::Ready
        &&& boot_param_state == State::Ready
        &&& local_interrupt_state == State::Ready
        &&& local_interrupts_disabled
    }

    /// Switches the buffer to its runtime form, keeping its records, inside a saved
    /// local-interrupt section of the boot CPU that the caller enters and leaves once
    /// the guards hold; `irq` is what the save and the restore reported.
    pub fn setup(
        &mut self,
        memblock_state: State,
        per_cpu_storage_state: State,
        boot_param_state: State,
        local_interrupt_state: State,
        local_interrupts_disabled: bool,
        irq: LocalIrqSaveRestore,
    ) -> (r: EventResult)
        ensures
            !old(self).setup_guard(
                memblock_state,
                per_cpu_storage_state,
                boot_param_state,
                local_interrupt_state,
                local_interrupts_disabled,
            ) ==> r == Err::<(), EventError>(
                condition_error(LifecycleEvent::Setup, old(self).lifecycle@, State::Prepared, State::Ready),
            ) && *final(self) == *old(self),
            old(self).setup_guard(
                memblock_state,
                per_cpu_storage_state,
                boot_param_state,
                local_interrupt_state,
                local_interrupts_disabled,
            ) && irq.save_result is Err ==> r == irq.save_result && *final(self) == *old(self),
            old(self).setup_guard(
                memblock_state,
                per_cpu_storage_state,
                boot_param_state,
                local_interrupt_state,
                local_interrupts_disabled,
            ) && irq.save_result == Ok::<(), EventError>(()) ==> final(self).percpu_data_ready
                && final(self).records_preserved && final(self).setup_local_irq_save_restore_used
                && final(self).setup_local_irq_guard_bound_to_boot_cpu,
            old(self).setup_guard(
                memblock_state,
                per_cpu_storage_state,
                boot_param_state,
                local_interrupt_state,
                local_interrupts_disabled,
            ) && irq.save_result == Ok::<(), EventError>(()) && irq.restore_result is Err ==> r
                == irq.restore_result && final(self).lifecycle == old(self).lifecycle,
            old(self).setup_guard(
                memblock_state,
                per_cpu_storage_state,
                boot_param_state,
                local_interrupt_state,
                local_interrupts_disabled,
            ) && irq.save_result == Ok::<(), EventError>(()) && irq.restore_result == Ok::<
                (),
                EventError,
            >(()) ==> r == Ok::<(), EventError>(()) && final(self).runtime_ready && final(self).lifecycle@ == State::Ready,
            final(self).buffer == old(self).buffer && final(self).read == old(self).read
                && final(self).write == old(self).write,
    {
        if self.lifecycle.state() != State::Prepared || memblock_state != State::Online
            || per_cpu_storage_state != State::Ready || boot_param_state != State::Ready
            || local_interrupt_state != State::Ready || !local_interrupts_disabled {
            return failed_condition(
                LifecycleEvent::Setup,
                self.lifecycle.state(),
                State::Prepared,
                State::Ready,
            );
        }
        let read = self.read;
        let write = self.write;
        if irq.save_result.is_err() {
            return irq.save_result;
        }
        self.percpu_data_ready = true;
        self.records_preserved = self.read == read && self.write == write;
        self.setup_local_irq_save_restore_used = true;
        self.setup_local_irq_guard_bound_to_boot_cpu = true;
        if irq.restore_result.is_err() {
            return irq.restore_result;
        }
        self.runtime_ready = true;
        self.lifecycle.transition(LifecycleEvent::Setup, State::Prepared, State::Ready)
    }

    /// Writes one byte, dropping the oldest when the ring is full.
    fn write_byte(&mut self, byte: u8)
        requires
            old(self).wf(),
        ensures
            final(self).wf(),
            final(self).contents() == keep_last(old(self).contents().push(byte), BUFFER_SIZE - 1),
            final(self).lifecycle == old(self).lifecycle,
    {
        let n = BUFFER_SIZE;
        let ghost c = self.contents();
        let ghost r0 = self.read as int;
        let ghost cnt = self.count();
        proof {
            lemma_ring_append(self.buffer@, r0, cnt, byte);
            vstd::arithmetic::div_mod::lemma_small_mod(self.write as nat, n as nat);
            vstd::arithmetic::div_mod::lemma_fundamental_div_mod(r0 + cnt, n as int);
            assert((r0 + cnt) % (n as int) == self.write as int) by {
                if self.write >= self.read {
                    vstd::arithmetic::div_mod::lemma_small_mod((r0 + cnt) as nat, n as nat);
                } else {
                    vstd::arithmetic::div_mod::lemma_mod_add_multiples_vanish(self.write as int, n as int);
                    vstd::arithmetic::div_mod::lemma_small_mod(self.write as nat, n as nat);
                }
            }
        }
        let next = (self.write + 1) % n;
        let w = self.write;
        self.buffer.set(w, byte);
        let ghost b1 = self.buffer@;
        if next == self.read {
            proof {
                assert(cnt == n - 1);
                lemma_ring_advance(b1, r0, n as int);
            }
            self.read = (self.read + 1) % n;
            self.write = next;
            proof {
                assert(self.count() == n - 1);
                assert(c.push(byte).len() == n);
                assert(keep_last(c.push(byte), n - 1) =~= c.push(byte).drop_first());
            }
        } else {
            self.write = next;
            proof {
                assert(self.count() == cnt + 1);
                assert(c.push(byte).len() <= n - 1);
            }
        }
    }

    /// Writes `bytes` while the buffer is prepared or ready; the ring keeps the most
    /// recent `BUFFER_SIZE - 1` bytes.
    pub fn write_bytes(&mut self, bytes: &[u8])
        requires
            old(self).wf(),
        ensures
            final(self).wf(),
            old(self).lifecycle@ != State::Prepared && old(self).lifecycle@ != State::Ready
                ==> final(self).contents() == old(self).contents(),
            old(self).lifecycle@ == State::Prepared || old(self).lifecycle@ == State::Ready
                ==> final(self).contents() == keep_last(old(self).contents() + bytes@, BUFFER_SIZE - 1),
            final(self).lifecycle == old(self).lifecycle,
    {
        if self.lifecycle.state() != State::Prepared && self.lifecycle.state() != State::Ready {
            return;
        }
        let ghost c0 = self.contents();
        let mut i: usize = 0;
        proof {
            assert(c0 + bytes@.take(0) =~= c0);
            lemma_keep_last_small(c0, BUFFER_SIZE - 1);
        }
        while i < bytes.len()
            invariant
                self.wf(),
                i <= bytes@.len(),
                self.lifecycle == old(self).lifecycle,
                self.contents() == keep_last(c0 + bytes@.take(i as int), BUFFER_SIZE - 1),
            decreases bytes@.len() - i,
        {
            let byte = bytes[i];
            self.write_byte(byte);
            proof {
                lemma_keep_last_push(c0 + bytes@.take(i as int), byte, BUFFER_SIZE - 1);
                assert(c0 + bytes@.take(i + 1) =~= (c0 + bytes@.take(i as int)).push(byte));
            }
            i += 1;
        }
        proof {
            assert(bytes@.take(bytes@.len() as int) =~= bytes@);
        }
    }

    /// Takes out every byte not delivered yet, oldest first, for the caller to hand to
    /// its sink.
    pub fn drain_to(&mut self) -> (r: Vec<u8>)
        requires
            old(self).wf(),
        ensures
            final(self).wf(),
            r@ == old(self).contents(),
            final(self).contents().len() == 0,
            final(self).lifecycle == old(self).lifecycle,
    {
        let mut out: Vec<u8> = Vec::new();
        let ghost c0 = self.contents();
        while self.read != self.write
            invariant
                self.wf(),
                self.lifecycle == old(self).lifecycle,
                out@ + self.contents() == c0,
            decreases self.count(),
        {
            let ghost before = self.contents();
            proof {
                lemma_ring_advance(self.buffer@, self.read as int, self.count());
            }
            let byte = self.buffer[self.read];
            self.read = (self.read + 1) % BUFFER_SIZE;
            out.push(byte);
            proof {
                assert(self.count() == before.len() - 1);
                assert(self.contents() =~= before.drop_first());
                assert(out@ + self.contents() =~= c0);
            }
        }
        proof {
            assert(self.contents() =~= Seq::<u8>::empty());
            assert(out@ =~= c0);
        }
        out
    }

    /// Drops every byte not delivered yet.
    pub fn discard_delivered(&mut self)
        requires
            old(self).wf(),
        ensures
            final(self).wf(),
            final(self).contents().len() == 0,
            final(self).lifecycle == old(self).lifecycle,
    {
        self.read = self.write;
    }

    pub fn is_prepared(&self) -> (r: bool)
        ensures
            r == (self.lifecycle@ == State::Prepared),
    {
        self.lifecycle.state() == State::Prepared
    }

    pub fn is_ready(&self) -> (r: bool)
        ensures
            r == (self.lifecycle@ == State::Ready && self.runtime_ready && self.percpu_data_ready
                && self.records_preserved && self.setup_local_irq_save_restore_used
                && self.setup_local_irq_guard_bound_to_boot_cpu),
    {
        self.lifecycle.state() == State::Ready && self.runtime_ready && self.percpu_data_ready
            && self.records_preserved && self.setup_local_irq_save_restore_used
            && self.setup_local_irq_guard_bound_to_boot_cpu
    }

    pub fn runtime_ready(&self) -> (r: bool)
        ensures
            r == self.runtime_ready,
    {
        self.runtime_ready
    }

    pub fn percpu_data_ready(&self) -> (r: bool)
        ensures
            r == self.percpu_data_ready,
    {
        self.percpu_data_ready
    }

    pub fn records_preserved(&self) -> (r: bool)
        ensures
            r == self.records_preserved,
    {
        self.records_preserved
    }

    pub fn setup_local_irq_save_restore_used(&self) -> (r: bool)
        ensures
            r == self.setup_local_irq_save_restore_used,
    {
        self.setup_local_irq_save_restore_used
    }

    /// Whether the setup's saved section belongs to the boot CPU's local interrupt
    /// state, which is ready and disabled.
    pub fn setup_local_irq_guard_used_by(&self, local_interrupt_state: State, local_interrupts_disabled: bool) -> (r: bool)
        ensures
            r == (self.lifecycle@ == State::Ready && self.setup_local_irq_save_restore_used
                && self.setup_local_irq_guard_bound_to_boot_cpu && local_interrupt_state
                == State::Ready && local_interrupts_disabled),
    {
        self.lifecycle.state() == State::Ready && self.setup_local_irq_save_restore_used
            && self.setup_local_irq_guard_bound_to_boot_cpu && local_interrupt_state == State::Ready
            && local_interrupts_disabled
    }
}

/// A sequence no longer than the bound is kept whole.
pub proof fn lemma_keep_last_small(s: Seq<u8>, n: int)
    requires
        s.len() <= n,
    ensures
        keep_last(s, n) == s,
{
}

/// Keeping the last `n` bytes after each appended byte keeps the last `n` of all.
pub proof fn lemma_keep_last_push(s: Seq<u8>, b: u8, n: int)
    requires
        n > 0,
    ensures
        keep_last(keep_last(s, n).push(b), n) == keep_last(s.push(b), n),
{
    if s.len() <= n {
    } else {
        let k = keep_last(s, n);
        assert(k.len() == n);
        assert(keep_last(k.push(b), n) =~= k.push(b).skip(1));
        assert(keep_last(s.push(b), n) =~= s.push(b).skip(s.len() + 1 - n));
        assert(k.push(b).skip(1) =~= s.push(b).skip(s.len() + 1 - n));
    }
}

/// The law of the printk ring: writing keeps the most recent bytes, in order, and a
/// drain hands them out exactly once. Writing `a` then `b` leaves what writing `a + b`
/// at once leaves.
pub proof fn lemma_printk_write_concat(c: Seq<u8>, a: Seq<u8>, b: Seq<u8>)
    ensures
        keep_last(keep_last(c + a, BUFFER_SIZE - 1) + b, BUFFER_SIZE - 1) == keep_last(
            c + (a + b),
            BUFFER_SIZE - 1,
        ),
    decreases b.len(),
{
    let n = BUFFER_SIZE - 1;
    if b.len() == 0 {
        assert(keep_last(c + a, n) + b =~= keep_last(c + a, n));
        assert(c + (a + b) =~= c + a);
        assert(keep_last(keep_last(c + a, n), n) == keep_last(c + a, n));
    } else {
        let b0 = b.drop_last();
        let x = b.last();
        lemma_printk_write_concat(c, a, b0);
        lemma_keep_last_push(keep_last(c + a, n) + b0, x, n);
        lemma_keep_last_push(c + (a + b0), x, n);
        assert(keep_last(c + a, n) + b =~= (keep_last(c + a, n) + b0).push(x));
        assert(c + (a + b) =~= (c + (a + b0)).push(x));
    }
}

} // verus!
