use vstd::prelude::*;
use crate::state::{condition_error, failed_condition, EventError, EventResult, Lifecycle, LifecycleEvent, State};

verus! {

pub struct Randomness {
    pub lifecycle: Lifecycle,
    pub early_mix: u64,
    pub arch_entropy_bits: u16,
    pub early_mix_without_input_pool_lock: bool,
    pub early_conditional_reseed_deferred: bool,
    pub fully_ready: bool,
    pub timekeeping_required: bool,
    pub cycle_entropy_mixed: bool,
    pub input_pool_lock_deferred: bool,
    pub base_crng_lock_deferred: bool,
    pub pm_notifier_deferred: bool,
}

impl Randomness {
    pub fn new() -> (s: Self)
        ensures
            s.lifecycle@ == State::Base,
            s.early_mix == 0,
            s.arch_entropy_bits == 0,
            !s.early_mix_without_input_pool_lock,
            !s.early_conditional_reseed_deferred,
            !s.fully_ready,
            !s.timekeeping_required,
            !s.cycle_entropy_mixed,
            !s.input_pool_lock_deferred,
            !s.base_crng_lock_deferred,
            !s.pm_notifier_deferred,
    {
        Self {
            lifecycle: Lifecycle::new(State::Base),
            early_mix: 0,
            arch_entropy_bits: 0,
            early_mix_without_input_pool_lock: false,
            early_conditional_reseed_deferred: false,
            fully_ready: false,
            timekeeping_required: false,
            cycle_entropy_mixed: false,
            input_pool_lock_deferred: false,
            base_crng_lock_deferred: false,
            pm_notifier_deferred: false,
        }
    }

    pub fn state(&self) -> (r: State)
        ensures
            r == self.lifecycle@,
    {
        self.lifecycle.state()
    }
    pub fn early_mix(&self) -> (r: u64)
        ensures
            r == self.early_mix,
    {
        self.early_mix
    }
    pub fn arch_entropy_bits(&self) -> (r: u16)
        ensures
            r == self.arch_entropy_bits,
    {
        self.arch_entropy_bits
    }

    pub fn early_mix_without_input_pool_lock(&self) -> (r: bool)
        ensures
            r == self.early_mix_without_input_pool_lock,
    {
        self.early_mix_without_input_pool_lock
    }

    pub fn early_conditional_reseed_deferred(&self) -> (r: bool)
        ensures
            r == self.early_conditional_reseed_deferred,
    {
        self.early_conditional_reseed_deferred
    }
    pub fn is_fully_ready(&self) -> (r: bool)
        ensures
            r == self.fully_ready,
    {
        self.fully_ready
    }

    pub fn timekeeping_required(&self) -> (r: bool)
        ensures
            r == self.timekeeping_required,
    {
        self.timekeeping_required
    }

    pub fn cycle_entropy_mixed(&self) -> (r: bool)
        ensures
            r == self.cycle_entropy_mixed,
    {
        self.cycle_entropy_mixed
    }

    pub fn input_pool_lock_deferred(&self) -> (r: bool)
        ensures
            r == self.input_pool_lock_deferred,
    {
        self.input_pool_lock_deferred
    }

    pub fn base_crng_lock_deferred(&self) -> (r: bool)
        ensures
            r == self.base_crng_lock_deferred,
    {
        self.base_crng_lock_deferred
    }

    pub fn pm_notifier_deferred(&self) -> (r: bool)
        ensures
            r == self.pm_notifier_deferred,
    {
        self.pm_notifier_deferred
    }

    /// Mixes the static command line into the early seed. `static_command_line_state`
    /// and `command_line` are the static command line's state and bytes.
    pub fn preset(&mut self, static_command_line_state: State, command_line: &[u8]) -> (r: EventResult)
        ensures
            old(self).lifecycle@ != State::Base || static_command_line_state != State::Ready ==> r
                == Err::<(), EventError>(
                condition_error(LifecycleEvent::Preset, old(self).lifecycle@, State::Base, State::Prepared),
            ) && *final(self) == *old(self),
            old(self).lifecycle@ == State::Base && static_command_line_state == State::Ready ==> r
                == Ok::<(), EventError>(()) && final(self).lifecycle@ == State::Prepared
                && *final(self) == (Randomness {
                lifecycle: final(self).lifecycle,
                arch_entropy_bits: 0,
                early_mix: early_seed_mix(command_line@, 0),
                early_mix_without_input_pool_lock: true,
                early_conditional_reseed_deferred: true,
                base_crng_lock_deferred: true,
                fully_ready: false,
                ..*old(self)
            }),
    {
        if self.lifecycle.state() != State::Base || static_command_line_state != State::Ready {
            return failed_condition(
                LifecycleEvent::Preset,
                self.lifecycle.state(),
                State::Base,
                State::Prepared,
            );
        }
        self.arch_entropy_bits = arch_entropy_bits();
        self.early_mix = mix_early_seed_material(command_line, self.arch_entropy_bits);
        self.early_mix_without_input_pool_lock = true;
        self.early_conditional_reseed_deferred = true;
        self.base_crng_lock_deferred = true;
        self.fully_ready = false;
        self.lifecycle.transition(LifecycleEvent::Preset, State::Base, State::Prepared)
    }

    /// Mixes the time seed and the boot CPU's hart id into the early seed.
    /// `boot_hartid` is the boot CPU's hart id, `None` when the CPU group has no boot CPU.
    pub fn setup(
        &mut self,
        cpu_group_state: State,
        boot_hartid: Option<usize>,
        timekeeper_state: State,
        time_seed: u64,
    ) -> (r: EventResult)
        ensures
            boot_hartid is None || old(self).lifecycle@ != State::Prepared || cpu_group_state
                != State::Ready || timekeeper_state != State::Ready ==> r == Err::<(), EventError>(
                condition_error(LifecycleEvent::Setup, old(self).lifecycle@, State::Prepared, State::Ready),
            ) && *final(self) == *old(self),
            !(boot_hartid is None || old(self).lifecycle@ != State::Prepared || cpu_group_state
                != State::Ready || timekeeper_state != State::Ready) ==> r == Ok::<(), EventError>(())
                && final(self).lifecycle@ == State::Ready && *final(self) == (Randomness {
                lifecycle: final(self).lifecycle,
                early_mix: fnv1a(
                    fnv1a(old(self).early_mix, le_bytes_u64(time_seed)),
                    le_bytes_u64(boot_hartid->0 as u64),
                ),
                timekeeping_required: true,
                cycle_entropy_mixed: true,
                input_pool_lock_deferred: true,
                base_crng_lock_deferred: true,
                pm_notifier_deferred: true,
                fully_ready: true,
                ..*old(self)
            }),
    {
        let boot = match boot_hartid {
            Some(h) => h,
            None => {
                return failed_condition(
                    LifecycleEvent::Setup,
                    self.lifecycle.state(),
                    State::Prepared,
                    State::Ready,
                );
            },
        };
        if self.lifecycle.state() != State::Prepared || cpu_group_state != State::Ready
            || timekeeper_state != State::Ready {
            return failed_condition(
                LifecycleEvent::Setup,
                self.lifecycle.state(),
                State::Prepared,
                State::Ready,
            );
        }
        let t = u64_le_bytes(time_seed);
        self.early_mix = mix_bytes(self.early_mix, t.as_slice());
        let h = u64_le_bytes(boot as u64);
        self.early_mix = mix_bytes(self.early_mix, h.as_slice());
        self.timekeeping_required = true;
        self.cycle_entropy_mixed = true;
        self.input_pool_lock_deferred = true;
        self.base_crng_lock_deferred = true;
        self.pm_notifier_deferred = true;
        self.fully_ready = true;
        self.lifecycle.transition(LifecycleEvent::Setup, State::Prepared, State::Ready)
    }
}

/// The FNV-1a offset basis that the early seed starts from.
pub const FNV_OFFSET_BASIS: u64 = 0xcbf2_9ce4_8422_2325;

/// The FNV-1a prime.
pub const FNV_PRIME: u64 = 0x0000_0100_0000_01b3;

/// One FNV-1a step: xor the byte in, multiply by the prime, modulo 2^64.
pub open spec fn fnv1a_step(mix: u64, byte: u8) -> u64 {
    vstd::wrapping::u64_specs::wrapping_mul(mix ^ (byte as u64), FNV_PRIME)
}

/// FNV-1a over `bytes`, from `mix`.
pub open spec fn fnv1a(mix: u64, bytes: Seq<u8>) -> u64
    decreases bytes.len(),
{
    if bytes.len() == 0 {
        mix
    } else {
        fnv1a(fnv1a_step(mix, bytes[0]), bytes.drop_first())
    }
}

/// The little-endian bytes of a `u16`.
pub open spec fn le_bytes_u16(x: u16) -> Seq<u8> {
    seq![(x & 0xff) as u8, ((x >> 8u16) & 0xff) as u8]
}

/// The little-endian bytes of a `u64`.
pub open spec fn le_bytes_u64(x: u64) -> Seq<u8> {
    Seq::new(8, |k: int| ((x >> ((8 * k) as u64)) & 0xff) as u8)
}

/// The label mixed in before anything else: `arceos_ex.random_init_early`.
pub open spec fn early_seed_label() -> Seq<u8> {
    seq![97u8, 114, 99, 101, 111, 115, 95, 101, 120, 46, 114, 97, 110, 100, 111, 109, 95, 105,
        110, 105, 116, 95, 101, 97, 114, 108, 121]
}

/// FNV-1a takes bytes one at a time: hashing a byte after others xors it into the hash of
/// the others and multiplies by the 64-bit FNV prime 1099511628211, modulo 2^64.
pub proof fn lemma_fnv1a_appends(mix: u64, bytes: Seq<u8>, byte: u8)
    ensures
        fnv1a(mix, bytes.push(byte)) as int == ((fnv1a(mix, bytes) ^ (byte as u64)) as int
            * 1099511628211) % 0x1_0000_0000_0000_0000,
        fnv1a(mix, Seq::<u8>::empty()) == mix,
    decreases bytes.len(),
{
    let x = fnv1a(mix, bytes) ^ (byte as u64);
    let m = 0x1_0000_0000_0000_0000int;
    assert(FNV_PRIME == 1099511628211u64);
    vstd::arithmetic::div_mod::lemma_mod_pos_bound(x as int * 1099511628211, m);
    if bytes.len() > 0 {
        lemma_fnv1a_appends(fnv1a_step(mix, bytes[0]), bytes.drop_first(), byte);
        assert(bytes.push(byte).drop_first() =~= bytes.drop_first().push(byte));
        assert(bytes.push(byte)[0] == bytes[0]);
    } else {
        let t = bytes.push(byte);
        assert(t[0] == byte);
        assert(t.drop_first() =~= Seq::<u8>::empty());
        reveal_with_fuel(fnv1a, 2);
        assert(fnv1a(mix, t) == fnv1a_step(mix, byte));
    }
}

/// The early seed: the label, the architecture's entropy bits and the command line,
/// in this order, hashed with FNV-1a.
pub open spec fn early_seed_mix(command_line: Seq<u8>, arch_entropy_bits: u16) -> u64 {
    fnv1a(fnv1a(fnv1a(FNV_OFFSET_BASIS, early_seed_label()), le_bytes_u16(arch_entropy_bits)), command_line)
}

/// Entropy bits that the architecture offers early: none on this platform.
pub fn arch_entropy_bits() -> (r: u16)
    ensures
        r == 0,
{
    0
}

pub fn u64_le_bytes(x: u64) -> (r: Vec<u8>)
    ensures
        r@ == le_bytes_u64(x),
{
    let mut r: Vec<u8> = Vec::new();
    let mut k: u64 = 0;
    while k < 8
        invariant
            k <= 8,
            r@.len() == k,
            forall|i: int| 0 <= i < k ==> r@[i] == ((x >> ((8 * i) as u64)) & 0xff) as u8,
        decreases 8 - k,
    {
        r.push(((x >> (8 * k)) & 0xff) as u8);
        k += 1;
    }
    assert(r@ =~= le_bytes_u64(x));
    r
}

pub fn mix_early_seed_material(command_line: &[u8], arch_entropy_bits: u16) -> (r: u64)
    ensures
        r == early_seed_mix(command_line@, arch_entropy_bits),
{
    let label: Vec<u8> = vec![97u8, 114, 99, 101, 111, 115, 95, 101, 120, 46, 114, 97, 110, 100,
        111, 109, 95, 105, 110, 105, 116, 95, 101, 97, 114, 108, 121];
    assert(label@ =~= early_seed_label());
    let mut mix = mix_bytes(FNV_OFFSET_BASIS, label.as_slice());
    let bits: Vec<u8> = vec![(arch_entropy_bits & 0xff) as u8, ((arch_entropy_bits >> 8) & 0xff) as u8];
    assert(bits@ =~= le_bytes_u16(arch_entropy_bits));
    mix = mix_bytes(mix, bits.as_slice());
    mix_bytes(mix, command_line)
}

/// FNV-1a over `bytes`, from `mix`.
pub fn mix_bytes(mix: u64, bytes: &[u8]) -> (r: u64)
    ensures
        r == fnv1a(mix, bytes@),
{
    let mut m = mix;
    let mut i: usize = 0;
    assert(bytes@.skip(0) =~= bytes@);
    while i < bytes.len()
        invariant
            i <= bytes@.len(),
            fnv1a(m, bytes@.skip(i as int)) == fnv1a(mix, bytes@),
        decreases bytes@.len() - i,
    {
        proof {
            assert(bytes@.skip(i as int).drop_first() =~= bytes@.skip(i + 1));
        }
        m = (m ^ (bytes[i] as u64)).wrapping_mul(FNV_PRIME);
        i += 1;
    }
    proof {
        assert(bytes@.skip(i as int) =~= Seq::<u8>::empty());
    }
    m
}

} // verus!
