use vstd::prelude::*;

verus! {

/// The tone period that a raw twelve-bit word selects: the word, and 1 in
/// place of 0.
pub open spec fn tone_period_of(raw: int) -> nat {
    if raw <= 0 {
        1
    } else {
        raw as nat
    }
}

/// The five-bit level that a channel hands to the converter in one chip tick.
///
/// A disabled source counts as a constant 1, so that the other source alone
/// decides and a channel with both disabled is a constant. Where both sources
/// are 1 the level is the envelope's, or else the channel's own four-bit
/// amplitude `a` as `2 * a + 1`; where one of them is 0 the level is 0.
pub open spec fn mixed_level(c: ChannelState, noise: nat, envelope: nat) -> nat {
    let tone_open = c.value == 1 || c.tone_off;
    let noise_open = noise == 1 || c.noise_off;
    if tone_open && noise_open {
        if c.envelope_on {
            envelope
        } else {
            2 * c.amplitude + 1
        }
    } else {
        0
    }
}

/// What a channel holds.
pub struct ChannelState {
    /// Chip ticks between two flips of the square wave, 1 to 4095.
    pub period: nat,
    /// Chip ticks since the last flip.
    pub position: nat,
    /// The square wave's bit.
    pub value: nat,
    /// Whether the tone is kept out of the mix.
    pub tone_off: bool,
    /// Whether the noise is kept out of the mix.
    pub noise_off: bool,
    /// Whether the envelope, not the amplitude, gives the level.
    pub envelope_on: bool,
    /// The fixed amplitude, 0 to 15.
    pub amplitude: nat,
}

impl ChannelState {
    /// A freshly built channel: silent, with both sources disabled.
    pub open spec fn initial() -> ChannelState {
        ChannelState {
            period: 1,
            position: 0,
            value: 0,
            tone_off: true,
            noise_off: true,
            envelope_on: false,
            amplitude: 0,
        }
    }

    /// The ranges that every reachable state keeps.
    pub open spec fn wf(self) -> bool {
        &&& 1 <= self.period <= 4095
        &&& self.position < 4095
        &&& self.value <= 1
        &&& self.amplitude <= 15
    }

    /// The state one chip tick later: the square wave flips once every
    /// `period` ticks.
    pub open spec fn tick(self) -> ChannelState {
        if self.position + 1 >= self.period {
            ChannelState { position: 0, value: (1 - self.value) as nat, ..self }
        } else {
            ChannelState { position: self.position + 1, ..self }
        }
    }

    /// The state `n` chip ticks later.
    pub open spec fn ticks(self, n: nat) -> ChannelState
        decreases n,
    {
        if n == 0 {
            self
        } else {
            self.tick().ticks((n - 1) as nat)
        }
    }

    /// The state after a write of `raw` to the whole period, of which the low
    /// twelve bits count.
    pub open spec fn with_period(self, raw: u16) -> ChannelState {
        ChannelState { period: tone_period_of((raw % 4096) as int), ..self }
    }

    /// The state after a write of `raw` to the high byte of the period, of
    /// which the low four bits count; the low byte stays.
    pub open spec fn with_period_msb(self, raw: u8) -> ChannelState {
        ChannelState {
            period: tone_period_of((raw % 16) * 256 + self.period % 256),
            ..self
        }
    }

    /// The state after a write of `raw` to the low byte of the period; the
    /// high byte stays.
    pub open spec fn with_period_lsb(self, raw: u8) -> ChannelState {
        ChannelState {
            period: tone_period_of((self.period / 256) * 256 + raw),
            ..self
        }
    }

    /// The state after a write of `raw` to the amplitude, of which the low
    /// four bits count.
    pub open spec fn with_amplitude(self, raw: u8) -> ChannelState {
        ChannelState { amplitude: (raw % 16) as nat, ..self }
    }

    /// The state after a write of `raw` to the amplitude register: the low
    /// four bits are the amplitude, the fifth switches the envelope on.
    pub open spec fn with_amplitude_register(self, raw: u8) -> ChannelState {
        ChannelState {
            amplitude: (raw % 16) as nat,
            envelope_on: (raw / 16) % 2 == 1,
            ..self
        }
    }

    /// The amplitude register's byte: the amplitude, and 16 more where the
    /// envelope is on.
    pub open spec fn amplitude_register(self) -> nat {
        if self.envelope_on {
            16 + self.amplitude
        } else {
            self.amplitude
        }
    }
}

/// A tick keeps a state within its ranges, and the level that the channel
/// then hands on fits the converter's 32 entries.
pub proof fn lemma_channel_tick_wf(s: ChannelState, noise: nat, envelope: nat)
    requires
        s.wf(),
        envelope <= 31,
    ensures
        s.tick().wf(),
        mixed_level(s.tick(), noise, envelope) <= 31,
{
}

/// Ticking `n + 1` times is ticking `n` times and once more.
pub proof fn lemma_channel_ticks_split(s: ChannelState, n: nat)
    ensures
        s.ticks(n + 1) == s.ticks(n).tick(),
    decreases n,
{
    reveal_with_fuel(ChannelState::ticks, 2);
    if n > 0 {
        lemma_channel_ticks_split(s.tick(), (n - 1) as nat);
    }
}

/// The square wave flips once every `period` ticks: from a state that has
/// just flipped, the bit stays for `period - 1` ticks and flips on the tick
/// after them.
pub proof fn lemma_tone_flips_every_period(s: ChannelState, k: nat)
    requires
        s.wf(),
        s.position == 0,
        k <= s.period,
    ensures
        k < s.period ==> s.ticks(k) == (ChannelState { position: k, ..s }),
        k == s.period ==> s.ticks(k) == (ChannelState { value: (1 - s.value) as nat, ..s }),
    decreases k,
{
    reveal_with_fuel(ChannelState::ticks, 2);
    if k > 0 {
        lemma_tone_flips_every_period(s, (k - 1) as nat);
        lemma_channel_ticks_split(s, (k - 1) as nat);
    }
}

/// The amplitude register reads back what was written to it, but for the
/// three bits that it does not hold.
pub proof fn lemma_amplitude_register_round_trip(s: ChannelState, raw: u8)
    ensures
        s.with_amplitude_register(raw).amplitude_register() == raw % 32,
{
}

/// Writing both bytes of the period, the high one first, selects the period
/// that one write of the whole word selects.
pub proof fn lemma_period_bytes_compose(s: ChannelState, raw: u16)
    requires
        s.wf(),
    ensures
        s.with_period_msb((raw / 256) as u8).with_period_lsb((raw % 256) as u8).period
            == s.with_period(raw).period,
{
    let hi = (raw / 256) as u8;
    let lo = (raw % 256) as u8;
    let mid = s.with_period_msb(hi).period;
    assert(mid / 256 == hi % 16) by {
        let m = (hi % 16) * 256 + s.period % 256;
        assert(m / 256 == hi % 16);
        if m == 0 {
            assert(mid == 1);
        }
    }
    assert((hi % 16) * 256 + lo == raw % 4096);
}

/// One of the PSG's three tone channels: a square-wave oscillator with its
/// period, its amplitude and the flags that decide what reaches the mix.
pub struct Channel {
    period: u16,
    position: u16,
    value: u8,
    tone_off: bool,
    noise_off: bool,
    envelope_on: bool,
    amplitude: u8,
}

impl View for Channel {
    type V = ChannelState;

    closed spec fn view(&self) -> ChannelState {
        ChannelState {
            period: self.period as nat,
            position: self.position as nat,
            value: self.value as nat,
            tone_off: self.tone_off,
            noise_off: self.noise_off,
            envelope_on: self.envelope_on,
            amplitude: self.amplitude as nat,
        }
    }
}

impl Channel {
    /// The ranges that every channel keeps, at every moment.
    #[verifier::type_invariant]
    pub open spec fn wf(&self) -> bool {
        self@.wf()
    }

    /// Initialize a new channel.
    pub fn new() -> (r: Self)
        ensures
            r@ == ChannelState::initial(),
            r.wf(),
    {
        Self {
            period: 1,
            position: 0,
            value: 0,
            tone_off: true,
            noise_off: true,
            envelope_on: false,
            amplitude: 0,
        }
    }

    /// Produce the next bit of the channel's square wave oscillator.
    pub fn render(&mut self) -> (bit: u8)
        ensures
            old(self).wf(),
            final(self)@ == old(self)@.tick(),
            final(self).wf(),
            bit == final(self)@.value,
            bit <= 1,
    {
        proof {
            use_type_invariant(&*self);
        }
        if self.position + 1 >= self.period {
            self.position = 0;
            self.value = 1 - self.value;
        } else {
            self.position += 1;
        }
        self.value
    }

    /// The level that the channel hands to the converter, given this tick's
    /// noise bit and envelope level.
    pub fn level(&self, noise: u8, envelope: u8) -> (l: u8)
        requires
            noise <= 1,
            envelope <= 31,
        ensures
            self.wf(),
            l == mixed_level(self@, noise as nat, envelope as nat),
            l <= 31,
    {
        proof {
            use_type_invariant(self);
        }
        let tone_open = self.value == 1 || self.tone_off;
        let noise_open = noise == 1 || self.noise_off;
        if tone_open && noise_open {
            if self.envelope_on {
                envelope
            } else {
                self.amplitude * 2 + 1
            }
        } else {
            0
        }
    }

    /// The channel's tone period, between 1 and 4095 inclusive.
    pub fn period(&self) -> (p: u16)
        ensures
            self.wf(),
            p == self@.period,
    {
        proof {
            use_type_invariant(self);
        }
        self.period
    }

    /// Set the channel's tone period from the low twelve bits of `period`;
    /// zero selects 1.
    pub fn set_period(&mut self, period: u16)
        ensures
            old(self).wf(),
            final(self)@ == old(self)@.with_period(period),
            final(self).wf(),
    {
        proof {
            use_type_invariant(&*self);
        }
        assert(period & 0x0fff == period % 4096) by (bit_vector);
        let masked = period & 0x0fff;
        self.period = if masked == 0 { 1 } else { masked };
    }

    /// The most significant byte of the channel's tone period, between 0 and
    /// 15 inclusive.
    pub fn period_msb(&self) -> (b: u8)
        ensures
            self.wf(),
            b == self@.period / 256,
    {
        proof {
            use_type_invariant(self);
        }
        let p = self.period;
        assert(p >> 8 == p / 256 && p >> 8 <= 255) by (bit_vector);
        (self.period >> 8) as u8
    }

    /// Set the most significant byte of the channel's tone period from the low
    /// four bits of `period` and keep the least significant byte. A period of
    /// zero becomes 1.
    pub fn set_period_msb(&mut self, period: u8)
        ensures
            old(self).wf(),
            final(self)@ == old(self)@.with_period_msb(period),
            final(self).wf(),
    {
        proof {
            use_type_invariant(&*self);
        }
        let p = self.period;
        assert((p & 0x00ff) | (((period as u16) & 0x0f) << 8) == (period % 16) * 256 + p % 256)
            by (bit_vector);
        let combined = (self.period & 0x00ff) | (((period as u16) & 0x0f) << 8);
        self.period = if combined == 0 { 1 } else { combined };
    }

    /// The least significant byte of the channel's tone period.
    pub fn period_lsb(&self) -> (b: u8)
        ensures
            self.wf(),
            b == self@.period % 256,
    {
        proof {
            use_type_invariant(self);
        }
        let p = self.period;
        assert(p & 0xff == p % 256) by (bit_vector);
        (self.period & 0xff) as u8
    }

    /// Set the least significant byte of the channel's tone period and keep
    /// the most significant one. A period of zero becomes 1.
    pub fn set_period_lsb(&mut self, period: u8)
        ensures
            old(self).wf(),
            final(self)@ == old(self)@.with_period_lsb(period),
            final(self).wf(),
    {
        proof {
            use_type_invariant(&*self);
        }
        let p = self.period;
        assert(p <= 4095 ==> (p & 0x0f00) | (period as u16) == (p / 256) * 256 + period) by (bit_vector);
        let combined = (self.period & 0x0f00) | (period as u16);
        self.period = if combined == 0 { 1 } else { combined };
    }

    /// The channel's amplitude, between 0 and 15 inclusive.
    pub fn amplitude(&self) -> (a: u8)
        ensures
            self.wf(),
            a == self@.amplitude,
    {
        proof {
            use_type_invariant(self);
        }
        self.amplitude
    }

    /// Set the channel's amplitude from the low four bits of `amplitude`.
    pub fn set_amplitude(&mut self, amplitude: u8)
        ensures
            old(self).wf(),
            final(self)@ == old(self)@.with_amplitude(amplitude),
            final(self).wf(),
    {
        proof {
            use_type_invariant(&*self);
        }
        assert(amplitude & 0x0f == amplitude % 16) by (bit_vector);
        self.amplitude = amplitude & 0x0f;
    }

    /// The channel's envelope enabled flag.
    pub fn envelope_enabled(&self) -> (b: bool)
        ensures
            self.wf(),
            b == self@.envelope_on,
    {
        proof {
            use_type_invariant(self);
        }
        self.envelope_on
    }

    /// Set the channel's envelope enabled flag.
    pub fn set_envelope_enabled(&mut self, enabled: bool)
        ensures
            old(self).wf(),
            final(self)@ == (ChannelState { envelope_on: enabled, ..old(self)@ }),
            final(self).wf(),
    {
        proof {
            use_type_invariant(&*self);
        }
        self.envelope_on = enabled;
    }

    /// The channel's amplitude register: the amplitude in bits 0 to 3 and the
    /// envelope enabled flag in bit 4.
    pub fn amplitude_and_envelope_enabled(&self) -> (b: u8)
        ensures
            self.wf(),
            b == self@.amplitude_register(),
    {
        proof {
            use_type_invariant(self);
        }
        let a = self.amplitude;
        assert(a <= 15 ==> (1u8 << 4) | a == 16 + a) by (bit_vector);
        assert((0u8 << 4) | a == a) by (bit_vector);
        let flag: u8 = if self.envelope_on { 1 } else { 0 };
        (flag << 4) | self.amplitude
    }

    /// Set the amplitude from bits 0 to 3 of `value` and the envelope enabled
    /// flag from its bit 4, as a write to the amplitude register does.
    pub fn set_amplitude_and_envelope_enabled(&mut self, value: u8)
        ensures
            old(self).wf(),
            final(self)@ == old(self)@.with_amplitude_register(value),
            final(self).wf(),
    {
        proof {
            use_type_invariant(&*self);
        }
        assert(value & 0x0f == value % 16) by (bit_vector);
        assert((value & 0x10 != 0) == ((value / 16) % 2 == 1)) by (bit_vector);
        self.amplitude = value & 0x0f;
        self.envelope_on = value & 0x10 != 0;
    }

    /// The channel's tone disabled flag.
    pub fn tone_disabled(&self) -> (b: bool)
        ensures
            self.wf(),
            b == self@.tone_off,
    {
        proof {
            use_type_invariant(self);
        }
        self.tone_off
    }

    /// Set the channel's tone disabled flag.
    pub fn set_tone_disabled(&mut self, disabled: bool)
        ensures
            old(self).wf(),
            final(self)@ == (ChannelState { tone_off: disabled, ..old(self)@ }),
            final(self).wf(),
    {
        proof {
            use_type_invariant(&*self);
        }
        self.tone_off = disabled;
    }

    /// The channel's noise disabled flag.
    pub fn noise_disabled(&self) -> (b: bool)
        ensures
            self.wf(),
            b == self@.noise_off,
    {
        proof {
            use_type_invariant(self);
        }
        self.noise_off
    }

    /// Set the channel's noise disabled flag.
    pub fn set_noise_disabled(&mut self, disabled: bool)
        ensures
            old(self).wf(),
            final(self)@ == (ChannelState { noise_off: disabled, ..old(self)@ }),
            final(self).wf(),
    {
        proof {
            use_type_invariant(&*self);
        }
        self.noise_off = disabled;
    }
}

} // verus!
