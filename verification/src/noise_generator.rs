use vstd::prelude::*;

verus! {

/// Seed of the shift register: with it the Galois form emits, bit for bit, what
/// a Fibonacci register with the same taps emits when started at 1.
pub const NOISE_SEED: u32 = 0x4001;

/// Feedback mask of the 17-bit shift register (taps at bits 13 and 16).
pub const NOISE_TAPS: u32 = 0x12000;

/// One step of the 17-bit Galois shift register.
pub open spec fn lfsr_step(value: u32) -> u32 {
    if value & 1 == 1 {
        (value >> 1) ^ NOISE_TAPS
    } else {
        value >> 1
    }
}

/// The period that a write of `raw` selects: its low five bits, and 1 where
/// those are all zero.
pub open spec fn noise_period_of(raw: u8) -> nat {
    if raw % 32 == 0 {
        1
    } else {
        (raw % 32) as nat
    }
}

/// What a noise generator holds.
pub struct NoiseState {
    /// Ticks of the divided clock between two shifts, 1 to 31.
    pub period: nat,
    /// Chip ticks since the last shift.
    pub counter: nat,
    /// The shift register.
    pub value: u32,
}

impl NoiseState {
    /// A freshly built generator.
    pub open spec fn initial() -> NoiseState {
        NoiseState { period: 1, counter: 0, value: NOISE_SEED }
    }

    /// The ranges that every reachable state keeps.
    pub open spec fn wf(self) -> bool {
        &&& 1 <= self.period <= 31
        &&& self.counter < 62
        &&& 0 < self.value < 0x20000
    }

    /// The state one chip tick later: the register shifts once every
    /// `2 * period` ticks.
    pub open spec fn tick(self) -> NoiseState {
        if self.counter + 1 >= 2 * self.period {
            NoiseState { counter: 0, value: lfsr_step(self.value), ..self }
        } else {
            NoiseState { counter: self.counter + 1, ..self }
        }
    }

    /// The state `n` chip ticks later.
    pub open spec fn ticks(self, n: nat) -> NoiseState
        decreases n,
    {
        if n == 0 {
            self
        } else {
            self.tick().ticks((n - 1) as nat)
        }
    }

    /// The bit that the generator emits in this state.
    pub open spec fn bit(self) -> u8 {
        (self.value % 2) as u8
    }

    /// The state after a write of `raw` to the period.
    pub open spec fn with_period(self, raw: u8) -> NoiseState {
        NoiseState { period: noise_period_of(raw), ..self }
    }
}

/// A tick keeps a state within its ranges.
pub proof fn lemma_noise_tick_wf(s: NoiseState)
    requires
        s.wf(),
    ensures
        s.tick().wf(),
        s.tick().bit() <= 1,
{
    let v = s.value;
    assert(0 < v < 0x20000 ==> 0 < lfsr_step(v) < 0x20000) by (bit_vector);
}

/// One step of the 17-bit shift register in Fibonacci form: the new top bit
/// is the exclusive or of bits 0 and 3.
pub open spec fn fibonacci_step(value: u32) -> u32 {
    (value >> 1) | (((value ^ (value >> 3)) & 1) << 16)
}

/// The Galois register that emits what the Fibonacci register `value` emits.
pub open spec fn galois_of(value: u32) -> u32 {
    value ^ ((value & 7) << 14)
}

/// The Galois register after `n` steps from `value`.
pub open spec fn lfsr_run(value: u32, n: nat) -> u32
    decreases n,
{
    if n == 0 {
        value
    } else {
        lfsr_run(lfsr_step(value), (n - 1) as nat)
    }
}

/// The Fibonacci register after `n` steps from `value`.
pub open spec fn fibonacci_run(value: u32, n: nat) -> u32
    decreases n,
{
    if n == 0 {
        value
    } else {
        fibonacci_run(fibonacci_step(value), (n - 1) as nat)
    }
}

/// The seed compensates for the Galois form being one step ahead: started at
/// the seed, the register emits after any number of steps the bit that a
/// Fibonacci register with the same taps emits when started at 1.
pub proof fn lemma_seed_matches_fibonacci(n: nat)
    ensures
        lfsr_run(NOISE_SEED, n) == galois_of(fibonacci_run(1, n)),
        lfsr_run(NOISE_SEED, n) % 2 == fibonacci_run(1, n) % 2,
{
    assert(galois_of(1) == NOISE_SEED) by (bit_vector);
    lemma_galois_follows_fibonacci(1, n);
}

/// A Galois register and the Fibonacci register that it stands for stay
/// together, step by step, and emit the same bit.
pub proof fn lemma_galois_follows_fibonacci(value: u32, n: nat)
    requires
        value < 0x20000,
    ensures
        lfsr_run(galois_of(value), n) == galois_of(fibonacci_run(value, n)),
        fibonacci_run(value, n) < 0x20000,
        lfsr_run(galois_of(value), n) % 2 == fibonacci_run(value, n) % 2,
    decreases n,
{
    if n == 0 {
        assert(galois_of(value) % 2 == value % 2) by (bit_vector);
    } else {
        assert(value < 0x20000 ==> lfsr_step(galois_of(value)) == galois_of(fibonacci_step(value))
            && fibonacci_step(value) < 0x20000) by (bit_vector);
        lemma_galois_follows_fibonacci(fibonacci_step(value), (n - 1) as nat);
    }
}

/// The noise's own divider: from a state whose counter is at rest, the
/// register keeps its value for `2 * period - 1` ticks and shifts once on the
/// tick after them, twice as slowly as a tone of the same period flips.
pub proof fn lemma_noise_shifts_every_two_periods(s: NoiseState, k: nat)
    requires
        s.wf(),
        s.counter == 0,
        k <= 2 * s.period,
    ensures
        k < 2 * s.period ==> s.ticks(k) == (NoiseState { counter: k, ..s }),
        k == 2 * s.period ==> s.ticks(k) == (NoiseState { value: lfsr_step(s.value), ..s }),
    decreases k,
{
    reveal_with_fuel(NoiseState::ticks, 2);
    if k > 0 {
        lemma_noise_shifts_every_two_periods(s, (k - 1) as nat);
        lemma_noise_ticks_split(s, (k - 1) as nat);
    }
}

/// Ticking `n + 1` times is ticking `n` times and once more.
pub proof fn lemma_noise_ticks_split(s: NoiseState, n: nat)
    ensures
        s.ticks(n + 1) == s.ticks(n).tick(),
    decreases n,
{
    reveal_with_fuel(NoiseState::ticks, 2);
    if n > 0 {
        lemma_noise_ticks_split(s.tick(), (n - 1) as nat);
    }
}

/// The PSG's noise generator: a 17-bit linear feedback shift register with taps
/// at bits 13 and 16, clocked once every `2 * period` chip ticks.
pub struct NoiseGenerator {
    period: u8,
    counter: u8,
    value: u32,
}

impl View for NoiseGenerator {
    type V = NoiseState;

    closed spec fn view(&self) -> NoiseState {
        NoiseState {
            period: self.period as nat,
            counter: self.counter as nat,
            value: self.value,
        }
    }
}

impl NoiseGenerator {
    /// The ranges that every noise generator keeps, at every moment.
    #[verifier::type_invariant]
    pub open spec fn wf(&self) -> bool {
        self@.wf()
    }

    /// Initialize a new noise generator.
    pub fn new() -> (r: Self)
        ensures
            r@ == NoiseState::initial(),
            r.wf(),
    {
        Self { period: 1, counter: 0, value: NOISE_SEED }
    }

    /// Render the next tick for the noise generator and return the noise bit.
    pub fn render(&mut self) -> (bit: u8)
        ensures
            old(self).wf(),
            final(self)@ == old(self)@.tick(),
            final(self).wf(),
            bit == final(self)@.bit(),
            bit <= 1,
    {
        proof {
            use_type_invariant(&*self);
            lemma_noise_tick_wf(self@);
        }
        let period = self.period;
        assert(period <= 31 ==> (period << 1) == 2 * period) by (bit_vector);
        if self.counter + 1 >= (period << 1) {
            let lsb = self.value & 1;
            let shifted = self.value >> 1;
            self.counter = 0;
            self.value = if lsb == 1 { shifted ^ NOISE_TAPS } else { shifted };
        } else {
            self.counter += 1;
        }
        let v = self.value;
        assert(v & 1 == v % 2) by (bit_vector);
        (self.value & 1) as u8
    }

    /// The noise generator's period, between 1 and 31 inclusive.
    pub fn period(&self) -> (p: u8)
        ensures
            self.wf(),
            p == self@.period,
    {
        proof {
            use_type_invariant(self);
        }
        self.period
    }

    /// Set the noise generator's period from the low five bits of `period`;
    /// zero selects 1.
    pub fn set_period(&mut self, period: u8)
        ensures
            old(self).wf(),
            final(self)@ == old(self)@.with_period(period),
            final(self).wf(),
    {
        proof {
            use_type_invariant(&*self);
        }
        assert(period & 0x1f == period % 32) by (bit_vector);
        let masked = period & 0x1f;
        self.period = if masked == 0 { 1 } else { masked };
    }
}

} // verus!
