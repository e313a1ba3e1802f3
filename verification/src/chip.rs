use vstd::prelude::*;
use vstd::arithmetic::power2::{lemma2_to64, pow2};
use crate::channel::{lemma_channel_tick_wf, mixed_level, Channel, ChannelState};
use crate::envelope_generator::{lemma_envelope_tick_wf, EnvelopeGenerator, EnvelopeState};
use crate::error::Error;
use crate::noise_generator::{lemma_noise_tick_wf, NoiseGenerator, NoiseState};

verus! {

/// Chip ticks may not outnumber the oversampled positions of a second: the
/// clock rate stays below this many times the sample rate.
pub const CLOCK_RATIO_LIMIT: u64 = 64;

/// The chip variants that the PSG can emulate.
#[derive(Clone, Copy, Debug, PartialEq, Eq, Structural)]
pub enum ChipType {
    /// The General Instrument AY-3-8910, whose converter tells 16 levels
    /// apart.
    AY,
    /// The Yamaha YM2149, whose converter uses the envelope's full five bits.
    YM,
}

/// Whether bit `n` of `byte` is set.
pub open spec fn bit_of(byte: u8, n: nat) -> bool {
    (byte as nat / pow2(n)) % 2 == 1
}

/// What a PSG holds.
pub struct PsgState {
    /// The three tone channels.
    pub channels: Seq<ChannelState>,
    /// The noise generator, shared by the channels.
    pub noise: NoiseState,
    /// The envelope generator, shared by the channels.
    pub envelope: EnvelopeState,
    /// The chip variant whose converter is in use.
    pub chip_type: ChipType,
}

impl PsgState {
    /// A freshly built PSG: three silent channels and a YM2149 converter.
    pub open spec fn initial() -> PsgState {
        PsgState {
            channels: seq![
                ChannelState::initial(),
                ChannelState::initial(),
                ChannelState::initial(),
            ],
            noise: NoiseState::initial(),
            envelope: EnvelopeState::initial(),
            chip_type: ChipType::YM,
        }
    }

    /// The ranges that every reachable state keeps.
    pub open spec fn wf(self) -> bool {
        &&& self.channels.len() == 3
        &&& forall|i: int| 0 <= i < 3 ==> (#[trigger] self.channels[i]).wf()
        &&& self.noise.wf()
        &&& self.envelope.wf()
    }

    /// The state with channel `index` replaced.
    pub open spec fn with_channel(self, index: int, channel: ChannelState) -> PsgState {
        PsgState { channels: self.channels.update(index, channel), ..self }
    }

    /// The state one chip tick later: the noise generator, the envelope
    /// generator and each oscillator advance once.
    pub open spec fn tick(self) -> PsgState {
        PsgState {
            channels: Seq::new(3, |i: int| self.channels[i].tick()),
            noise: self.noise.tick(),
            envelope: self.envelope.tick(),
            ..self
        }
    }

    /// The level that channel `index` hands to the converter in this state.
    pub open spec fn level(self, index: int) -> nat {
        mixed_level(self.channels[index], self.noise.bit() as nat, self.envelope.value)
    }

    /// The state after a write of `mixer` to the mixer register: bits 0 to 2
    /// disable the tone of channels 0 to 2, bits 3 to 5 their noise.
    pub open spec fn with_mixer(self, mixer: u8) -> PsgState {
        PsgState {
            channels: Seq::new(
                3,
                |i: int|
                    ChannelState {
                        tone_off: bit_of(mixer, i as nat),
                        noise_off: bit_of(mixer, (i + 3) as nat),
                        ..self.channels[i]
                    },
            ),
            ..self
        }
    }

    /// The state after a write of `value` to the register `register`.
    ///
    /// Registers 0 to 5 are the tone periods, low byte first; 6 is the noise
    /// period; 7 the mixer; 8 to 10 the amplitude registers; 11 and 12 the
    /// envelope period, low byte first; 13 the envelope shape. Every other
    /// register is ignored.
    pub open spec fn write_register(self, register: u8, value: u8) -> PsgState {
        if register < 6 {
            let index = register as int / 2;
            let channel = self.channels[index];
            if register % 2 == 0 {
                self.with_channel(index, channel.with_period_lsb(value))
            } else {
                self.with_channel(index, channel.with_period_msb(value))
            }
        } else if register == 6 {
            PsgState { noise: self.noise.with_period(value), ..self }
        } else if register == 7 {
            self.with_mixer(value)
        } else if register <= 10 {
            let index = register as int - 8;
            self.with_channel(index, self.channels[index].with_amplitude_register(value))
        } else if register == 11 {
            PsgState { envelope: self.envelope.with_period_lsb(value), ..self }
        } else if register == 12 {
            PsgState { envelope: self.envelope.with_period_msb(value), ..self }
        } else if register == 13 {
            PsgState { envelope: self.envelope.with_shape(value), ..self }
        } else {
            self
        }
    }
}

/// A fraction of a hertz never decides whether a clock is too high: a clock
/// of `numerator / denominator` hertz reaches `limit` hertz, a whole number,
/// exactly when its whole part does.
pub proof fn lemma_whole_hertz_decide(numerator: nat, denominator: nat, limit: nat)
    requires
        denominator > 0,
    ensures
        numerator / denominator >= limit <==> numerator >= limit * denominator,
{
    vstd::arithmetic::div_mod::lemma_fundamental_div_mod(numerator as int, denominator as int);
    vstd::arithmetic::div_mod::lemma_mod_bound(numerator as int, denominator as int);
    let q = numerator as int / denominator as int;
    let r = numerator as int % denominator as int;
    assert(numerator == denominator * q + r);
    if q >= limit {
        assert(denominator * q >= denominator * limit) by (nonlinear_arith)
            requires
                q >= limit,
                denominator > 0,
        ;
        assert(denominator * limit == limit * denominator) by (nonlinear_arith);
    } else {
        assert(denominator * (q + 1) <= denominator * limit) by (nonlinear_arith)
            requires
                q + 1 <= limit,
                denominator > 0,
        ;
        assert(denominator * (q + 1) == denominator * q + denominator) by (nonlinear_arith);
        assert(denominator * limit == limit * denominator) by (nonlinear_arith);
    }
}

/// In every well-formed state each tone period is between 1 and 4095, the
/// noise period between 1 and 31 and the envelope period between 1 and 65535;
/// no amplitude is above 15, the envelope's level is at most 31 and its shape
/// at most 15.
pub proof fn lemma_state_ranges(s: PsgState, channel: int)
    requires
        s.wf(),
        0 <= channel < 3,
    ensures
        1 <= s.channels[channel].period <= 4095,
        s.channels[channel].amplitude <= 15,
        1 <= s.noise.period <= 31,
        1 <= s.envelope.period <= 65535,
        s.envelope.value <= 31,
        s.envelope.shape <= 15,
{
}

/// A chip tick leaves a well-formed state well-formed, and every level that
/// it hands to the converter is one of the table's 32 indices.
pub proof fn lemma_tick_wf(s: PsgState, channel: int)
    requires
        s.wf(),
        0 <= channel < 3,
    ensures
        s.tick().wf(),
        s.tick().level(channel) <= 31,
{
    lemma_noise_tick_wf(s.noise);
    lemma_envelope_tick_wf(s.envelope);
    assert forall|i: int| 0 <= i < 3 implies (#[trigger] s.tick().channels[i]).wf() by {
        assert(s.channels[i].wf());
    }
    assert(s.channels[channel].wf());
    lemma_channel_tick_wf(s.channels[channel], s.noise.tick().bit() as nat, s.envelope.tick().value);
}

/// A write of any byte to any register leaves a well-formed state
/// well-formed, and a write to a register above 13 changes nothing.
pub proof fn lemma_write_register_wf(s: PsgState, register: u8, value: u8)
    requires
        s.wf(),
    ensures
        s.write_register(register, value).wf(),
        register > 13 ==> s.write_register(register, value) == s,
{
    let t = s.write_register(register, value);
    assert(s.channels[0].wf());
    assert(s.channels[1].wf());
    assert(s.channels[2].wf());
    assert forall|i: int| 0 <= i < 3 implies (#[trigger] t.channels[i]).wf() by {
        assert(s.channels[i].wf());
    }
}

/// Bits 6 and 7 of the mixer register are ignored: a write selects what the
/// byte's low six bits alone select.
pub proof fn lemma_mixer_ignores_high_bits(s: PsgState, mixer: u8)
    requires
        s.wf(),
    ensures
        s.with_mixer(mixer) == s.with_mixer(mixer % 64),
{
    let low = mixer % 64;
    lemma2_to64();
    assert(low == mixer % 64 ==> (mixer / 1) % 2 == (low / 1) % 2) by (bit_vector);
    assert(low == mixer % 64 ==> (mixer / 2) % 2 == (low / 2) % 2) by (bit_vector);
    assert(low == mixer % 64 ==> (mixer / 4) % 2 == (low / 4) % 2) by (bit_vector);
    assert(low == mixer % 64 ==> (mixer / 8) % 2 == (low / 8) % 2) by (bit_vector);
    assert(low == mixer % 64 ==> (mixer / 16) % 2 == (low / 16) % 2) by (bit_vector);
    assert(low == mixer % 64 ==> (mixer / 32) % 2 == (low / 32) % 2) by (bit_vector);
    assert forall|n: nat| n < 6 implies bit_of(mixer, n) == bit_of(low, n) by {
        assert(n == 0 || n == 1 || n == 2 || n == 3 || n == 4 || n == 5);
    }
    assert(s.with_mixer(mixer).channels =~= s.with_mixer(low).channels);
}

/// The programmable sound generator: the whole integer state of the chip and
/// the register file that drives it.
///
/// Each chip tick yields, for every channel, the index into the converter's
/// table of 32 amplitudes.
pub struct PSG {
    channels: [Channel; 3],
    noise_generator: NoiseGenerator,
    envelope_generator: EnvelopeGenerator,
    chip_type: ChipType,
}

impl View for PSG {
    type V = PsgState;

    closed spec fn view(&self) -> PsgState {
        PsgState {
            channels: Seq::new(3, |i: int| self.channels@[i]@),
            noise: self.noise_generator@,
            envelope: self.envelope_generator@,
            chip_type: self.chip_type,
        }
    }
}

impl PSG {
    /// The ranges that every PSG keeps.
    pub open spec fn wf(&self) -> bool {
        self@.wf()
    }

    /// Recall that every part of the PSG keeps its ranges.
    fn recall_ranges(&self)
        ensures
            self.wf(),
    {
        let a = &self.channels[0];
        let b = &self.channels[1];
        let c = &self.channels[2];
        proof {
            use_type_invariant(a);
            use_type_invariant(b);
            use_type_invariant(c);
            use_type_invariant(&self.noise_generator);
            use_type_invariant(&self.envelope_generator);
        }
    }

    /// Initialize a new PSG for a chip clock of `clock_rate` hertz and an
    /// output of `sample_rate` frames per second.
    ///
    /// The clock rate is given in whole hertz, rounded down: the limit is a
    /// whole number, so a fraction of a hertz never decides. The clock is too
    /// high exactly when it reaches 64 times the sample rate.
    pub fn new(clock_rate: u64, sample_rate: u32) -> (r: Result<Self, Error>)
        ensures
            r is Err <==> clock_rate >= CLOCK_RATIO_LIMIT * sample_rate,
            r matches Err(e) ==> e == Error::ClockRateTooHigh,
            r matches Ok(psg) ==> psg@ == PsgState::initial() && psg.wf(),
    {
        if clock_rate >= CLOCK_RATIO_LIMIT * (sample_rate as u64) {
            return Err(Error::ClockRateTooHigh);
        }
        let psg = Self {
            channels: [Channel::new(), Channel::new(), Channel::new()],
            noise_generator: NoiseGenerator::new(),
            envelope_generator: EnvelopeGenerator::new(),
            chip_type: ChipType::YM,
        };
        assert(psg@.channels =~= PsgState::initial().channels);
        Ok(psg)
    }

    /// The chip variant whose converter is in use.
    pub fn chip_type(&self) -> (t: ChipType)
        ensures
            self.wf(),
            t == self@.chip_type,
    {
        self.recall_ranges();
        self.chip_type
    }

    /// Set the PSG chip type. Nothing else changes.
    pub fn set_chip_type(&mut self, chip_type: ChipType)
        ensures
            old(self).wf(),
            final(self)@ == (PsgState { chip_type, ..old(self)@ }),
            final(self).wf(),
    {
        self.recall_ranges();
        self.chip_type = chip_type;
        assert(self@.channels =~= old(self)@.channels);
    }

    /// Render the next chip tick.
    ///
    /// The noise generator and the envelope generator advance once, before the
    /// channels, and all three channels mix the same noise bit and the same
    /// envelope level. Returns each channel's level for the converter.
    pub fn render_tick(&mut self) -> (levels: [u8; 3])
        ensures
            old(self).wf(),
            final(self)@ == old(self)@.tick(),
            final(self).wf(),
            forall|i: int| 0 <= i < 3 ==> levels[i] == final(self)@.level(i),
            forall|i: int| 0 <= i < 3 ==> levels[i] <= 31,
    {
        self.recall_ranges();
        let noise = self.noise_generator.render();
        let envelope = self.envelope_generator.render();
        self.channels[0].render();
        self.channels[1].render();
        self.channels[2].render();
        let levels = [
            self.channels[0].level(noise, envelope),
            self.channels[1].level(noise, envelope),
            self.channels[2].level(noise, envelope),
        ];
        assert(self@.channels =~= old(self)@.tick().channels);
        levels
    }

    /// Return a reference to the specified channel.
    pub fn channel(&self, index: u8) -> (c: &Channel)
        requires
            index < 3,
        ensures
            self.wf(),
            c@ == self@.channels[index as int],
    {
        self.recall_ranges();
        &self.channels[index as usize]
    }

    /// Return a mutable reference to the specified channel. What the caller
    /// leaves in it becomes that channel; the other two channels and the rest
    /// of the PSG stay.
    pub fn channel_mut(&mut self, index: u8) -> (c: &mut Channel)
        requires
            index < 3,
        ensures
            old(self).wf(),
            c@ == old(self)@.channels[index as int],
            final(self)@.channels =~= old(self)@.channels.update(index as int, final(c)@),
            final(self)@ == old(self)@.with_channel(index as int, final(c)@),
    {
        self.recall_ranges();
        &mut self.channels[index as usize]
    }

    /// Return a reference to the PSG's noise generator.
    pub fn noise_generator(&self) -> (n: &NoiseGenerator)
        ensures
            self.wf(),
            n@ == self@.noise,
    {
        self.recall_ranges();
        &self.noise_generator
    }

    /// Return a mutable reference to the PSG's noise generator.
    pub fn noise_generator_mut(&mut self) -> (n: &mut NoiseGenerator)
        ensures
            old(self).wf(),
            n@ == old(self)@.noise,
            final(self)@ =~= (PsgState { noise: final(n)@, ..old(self)@ }),
    {
        self.recall_ranges();
        &mut self.noise_generator
    }

    /// Return a reference to the PSG's envelope generator.
    pub fn envelope_generator(&self) -> (e: &EnvelopeGenerator)
        ensures
            self.wf(),
            e@ == self@.envelope,
    {
        self.recall_ranges();
        &self.envelope_generator
    }

    /// Return a mutable reference to the PSG's envelope generator.
    pub fn envelope_generator_mut(&mut self) -> (e: &mut EnvelopeGenerator)
        ensures
            old(self).wf(),
            e@ == old(self)@.envelope,
            final(self)@ =~= (PsgState { envelope: final(e)@, ..old(self)@ }),
    {
        self.recall_ranges();
        &mut self.envelope_generator
    }

    /// Set a channel's tone period from the low twelve bits of `period`; zero
    /// selects 1.
    pub fn set_tone_period(&mut self, channel: u8, period: u16)
        requires
            channel < 3,
        ensures
            old(self).wf(),
            final(self)@ == old(self)@.with_channel(
                channel as int,
                old(self)@.channels[channel as int].with_period(period),
            ),
            final(self).wf(),
    {
        self.recall_ranges();
        self.channels[channel as usize].set_period(period);
        assert(self@.channels =~= old(self)@.channels.update(
            channel as int,
            old(self)@.channels[channel as int].with_period(period),
        ));
    }

    /// Set a channel's amplitude from the low four bits of `amplitude`.
    pub fn set_amplitude(&mut self, channel: u8, amplitude: u8)
        requires
            channel < 3,
        ensures
            old(self).wf(),
            final(self)@ == old(self)@.with_channel(
                channel as int,
                old(self)@.channels[channel as int].with_amplitude(amplitude),
            ),
            final(self).wf(),
    {
        self.recall_ranges();
        self.channels[channel as usize].set_amplitude(amplitude);
        assert(self@.channels =~= old(self)@.channels.update(
            channel as int,
            old(self)@.channels[channel as int].with_amplitude(amplitude),
        ));
    }

    /// Set a channel's tone disable flag.
    pub fn set_tone_disabled(&mut self, channel: u8, disabled: bool)
        requires
            channel < 3,
        ensures
            old(self).wf(),
            final(self)@ == old(self)@.with_channel(
                channel as int,
                ChannelState { tone_off: disabled, ..old(self)@.channels[channel as int] },
            ),
            final(self).wf(),
    {
        self.recall_ranges();
        self.channels[channel as usize].set_tone_disabled(disabled);
        assert(self@.channels =~= old(self)@.channels.update(
            channel as int,
            ChannelState { tone_off: disabled, ..old(self)@.channels[channel as int] },
        ));
    }

    /// Set a channel's noise disable flag.
    pub fn set_noise_disabled(&mut self, channel: u8, disabled: bool)
        requires
            channel < 3,
        ensures
            old(self).wf(),
            final(self)@ == old(self)@.with_channel(
                channel as int,
                ChannelState { noise_off: disabled, ..old(self)@.channels[channel as int] },
            ),
            final(self).wf(),
    {
        self.recall_ranges();
        self.channels[channel as usize].set_noise_disabled(disabled);
        assert(self@.channels =~= old(self)@.channels.update(
            channel as int,
            ChannelState { noise_off: disabled, ..old(self)@.channels[channel as int] },
        ));
    }

    /// Set a channel's envelope enable flag.
    pub fn set_envelope_enabled(&mut self, channel: u8, enabled: bool)
        requires
            channel < 3,
        ensures
            old(self).wf(),
            final(self)@ == old(self)@.with_channel(
                channel as int,
                ChannelState { envelope_on: enabled, ..old(self)@.channels[channel as int] },
            ),
            final(self).wf(),
    {
        self.recall_ranges();
        self.channels[channel as usize].set_envelope_enabled(enabled);
        assert(self@.channels =~= old(self)@.channels.update(
            channel as int,
            ChannelState { envelope_on: enabled, ..old(self)@.channels[channel as int] },
        ));
    }

    /// Set the noise generator's period from the low five bits of `period`;
    /// zero selects 1.
    pub fn set_noise_period(&mut self, period: u8)
        ensures
            old(self).wf(),
            final(self)@ == (PsgState { noise: old(self)@.noise.with_period(period), ..old(self)@ }),
            final(self).wf(),
    {
        self.recall_ranges();
        self.noise_generator.set_period(period);
        assert(self@.channels =~= old(self)@.channels);
    }

    /// Set the PSG's mixer register.
    ///
    /// Bits 0 to 2 disable the tone of channels 0 to 2 and bits 3 to 5 disable
    /// their noise; a cleared bit enables. Bits 6 and 7 are ignored.
    pub fn set_mixer(&mut self, mixer: u8)
        ensures
            old(self).wf(),
            final(self)@ == old(self)@.with_mixer(mixer),
            final(self).wf(),
    {
        self.recall_ranges();
        proof {
            lemma2_to64();
            assert((mixer & 0x01 != 0) == ((mixer / 1) % 2 == 1)) by (bit_vector);
            assert((mixer & 0x02 != 0) == ((mixer / 2) % 2 == 1)) by (bit_vector);
            assert((mixer & 0x04 != 0) == ((mixer / 4) % 2 == 1)) by (bit_vector);
            assert((mixer & 0x08 != 0) == ((mixer / 8) % 2 == 1)) by (bit_vector);
            assert((mixer & 0x10 != 0) == ((mixer / 16) % 2 == 1)) by (bit_vector);
            assert((mixer & 0x20 != 0) == ((mixer / 32) % 2 == 1)) by (bit_vector);
        }
        self.channels[0].set_tone_disabled(mixer & 0x01 != 0);
        self.channels[1].set_tone_disabled(mixer & 0x02 != 0);
        self.channels[2].set_tone_disabled(mixer & 0x04 != 0);
        self.channels[0].set_noise_disabled(mixer & 0x08 != 0);
        self.channels[1].set_noise_disabled(mixer & 0x10 != 0);
        self.channels[2].set_noise_disabled(mixer & 0x20 != 0);
        assert(self@.channels =~= old(self)@.with_mixer(mixer).channels);
    }

    /// Set the envelope generator's period; zero selects 1.
    pub fn set_envelope_period(&mut self, period: u16)
        ensures
            old(self).wf(),
            final(self)@ == (PsgState {
                envelope: old(self)@.envelope.with_period(period),
                ..old(self)@
            }),
            final(self).wf(),
    {
        self.recall_ranges();
        self.envelope_generator.set_period(period);
        assert(self@.channels =~= old(self)@.channels);
    }

    /// Set the envelope's shape from the low four bits of `shape` and start
    /// the program over.
    pub fn set_envelope_shape(&mut self, shape: u8)
        ensures
            old(self).wf(),
            final(self)@ == (PsgState {
                envelope: old(self)@.envelope.with_shape(shape),
                ..old(self)@
            }),
            final(self).wf(),
    {
        self.recall_ranges();
        self.envelope_generator.set_shape(shape);
        assert(self@.channels =~= old(self)@.channels);
    }

    /// Write the low byte of a channel's tone period.
    fn write_period_lsb(&mut self, channel: u8, value: u8)
        requires
            channel < 3,
        ensures
            old(self).wf(),
            final(self)@ == old(self)@.with_channel(
                channel as int,
                old(self)@.channels[channel as int].with_period_lsb(value),
            ),
            final(self).wf(),
    {
        self.recall_ranges();
        self.channels[channel as usize].set_period_lsb(value);
        assert(self@.channels =~= old(self)@.channels.update(
            channel as int,
            old(self)@.channels[channel as int].with_period_lsb(value),
        ));
    }

    /// Write the high byte of a channel's tone period.
    fn write_period_msb(&mut self, channel: u8, value: u8)
        requires
            channel < 3,
        ensures
            old(self).wf(),
            final(self)@ == old(self)@.with_channel(
                channel as int,
                old(self)@.channels[channel as int].with_period_msb(value),
            ),
            final(self).wf(),
    {
        self.recall_ranges();
        self.channels[channel as usize].set_period_msb(value);
        assert(self@.channels =~= old(self)@.channels.update(
            channel as int,
            old(self)@.channels[channel as int].with_period_msb(value),
        ));
    }

    /// Write a channel's amplitude register.
    fn write_amplitude_register(&mut self, channel: u8, value: u8)
        requires
            channel < 3,
        ensures
            old(self).wf(),
            final(self)@ == old(self)@.with_channel(
                channel as int,
                old(self)@.channels[channel as int].with_amplitude_register(value),
            ),
            final(self).wf(),
    {
        self.recall_ranges();
        self.channels[channel as usize].set_amplitude_and_envelope_enabled(value);
        assert(self@.channels =~= old(self)@.channels.update(
            channel as int,
            old(self)@.channels[channel as int].with_amplitude_register(value),
        ));
    }

    /// Set a PSG register to the provided value, as a write through the chip's
    /// address and data ports does.
    ///
    /// Registers 14 and 15, which on the chip drive its two I/O pins, are
    /// ignored, and so is every register number above 15.
    pub fn set_register(&mut self, register: u8, value: u8)
        ensures
            old(self).wf(),
            final(self)@ == old(self)@.write_register(register, value),
            final(self).wf(),
            register >= 14 ==> final(self)@ == old(self)@,
    {
        self.recall_ranges();
        match register {
            0 => self.write_period_lsb(0, value),
            1 => self.write_period_msb(0, value),
            2 => self.write_period_lsb(1, value),
            3 => self.write_period_msb(1, value),
            4 => self.write_period_lsb(2, value),
            5 => self.write_period_msb(2, value),
            6 => self.set_noise_period(value),
            7 => self.set_mixer(value),
            8 => self.write_amplitude_register(0, value),
            9 => self.write_amplitude_register(1, value),
            10 => self.write_amplitude_register(2, value),
            11 => {
                self.envelope_generator.set_period_lsb(value);
                assert(self@.channels =~= old(self)@.channels);
            },
            12 => {
                self.envelope_generator.set_period_msb(value);
                assert(self@.channels =~= old(self)@.channels);
            },
            13 => self.set_envelope_shape(value),
            _ => {
                assert(self@.channels =~= old(self)@.channels);
            },
        }
    }
}

} // verus!
