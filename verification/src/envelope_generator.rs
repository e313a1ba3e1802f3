use vstd::prelude::*;

verus! {

/// The highest level of the envelope's five-bit range.
pub const ENVELOPE_TOP: u8 = 31;

/// What an envelope does during one of its two segments.
#[derive(Clone, Copy, Debug, PartialEq, Eq, Structural)]
pub enum EnvelopeShape {
    /// Slide down from 31 to 0 and move on to the other segment afterwards.
    SlideDown,
    /// Slide up from 0 to 31 and move on to the other segment afterwards.
    SlideUp,
    /// Hold the level at 31 indefinitely.
    HoldTop,
    /// Hold the level at 0 indefinitely.
    HoldBottom,
}

impl EnvelopeShape {
    /// The level at which a segment of this kind starts: 31 for the two that
    /// start high, 0 for the others.
    pub open spec fn seed(self) -> nat {
        match self {
            EnvelopeShape::SlideDown | EnvelopeShape::HoldTop => 31,
            EnvelopeShape::SlideUp | EnvelopeShape::HoldBottom => 0,
        }
    }
}

/// The first segment of each of the sixteen envelope programs.
pub open spec fn first_segment(shape: nat) -> EnvelopeShape {
    if shape < 4 || 8 <= shape < 12 {
        EnvelopeShape::SlideDown
    } else {
        EnvelopeShape::SlideUp
    }
}

/// The second segment of each of the sixteen envelope programs.
pub open spec fn second_segment(shape: nat) -> EnvelopeShape {
    if shape == 8 || shape == 14 {
        EnvelopeShape::SlideDown
    } else if shape == 10 || shape == 12 {
        EnvelopeShape::SlideUp
    } else if shape == 11 || shape == 13 {
        EnvelopeShape::HoldTop
    } else {
        EnvelopeShape::HoldBottom
    }
}

/// The segment `segment` (0 or 1) of the envelope program `shape`.
pub open spec fn segment_shape(shape: nat, segment: nat) -> EnvelopeShape {
    if segment == 0 {
        first_segment(shape)
    } else {
        second_segment(shape)
    }
}

/// The period that a write of `raw` selects: `raw`, and 1 in place of 0.
pub open spec fn envelope_period_of(raw: int) -> nat {
    if raw <= 0 {
        1
    } else {
        raw as nat
    }
}

/// What an envelope generator holds.
pub struct EnvelopeState {
    /// Chip ticks since the level last moved.
    pub position: nat,
    /// Chip ticks between two moves of the level, 1 to 65535.
    pub period: nat,
    /// The envelope program, 0 to 15.
    pub shape: nat,
    /// The segment of the program that is running, 0 or 1.
    pub segment: nat,
    /// The level, 0 to 31.
    pub value: nat,
}

impl EnvelopeState {
    /// A freshly built generator.
    pub open spec fn initial() -> EnvelopeState {
        EnvelopeState { position: 0, period: 1, shape: 0, segment: 0, value: 0 }
    }

    /// The ranges that every reachable state keeps.
    pub open spec fn wf(self) -> bool {
        &&& self.position < 65535
        &&& 1 <= self.period <= 65535
        &&& self.shape <= 15
        &&& self.segment <= 1
        &&& self.value <= 31
    }

    /// The segment that is running.
    pub open spec fn current(self) -> EnvelopeShape {
        segment_shape(self.shape, self.segment)
    }

    /// The state after leaving the running segment for the other one, with the
    /// level at that segment's start.
    pub open spec fn flipped(self) -> EnvelopeState {
        let segment = (1 - self.segment) as nat;
        EnvelopeState {
            segment,
            value: segment_shape(self.shape, segment).seed(),
            ..self
        }
    }

    /// The state after one move of the level.
    pub open spec fn advance(self) -> EnvelopeState {
        match self.current() {
            EnvelopeShape::SlideDown => if self.value == 0 {
                self.flipped()
            } else {
                EnvelopeState { value: (self.value - 1) as nat, ..self }
            },
            EnvelopeShape::SlideUp => if self.value >= 31 {
                self.flipped()
            } else {
                EnvelopeState { value: self.value + 1, ..self }
            },
            EnvelopeShape::HoldTop | EnvelopeShape::HoldBottom => self,
        }
    }

    /// The state after `n` moves of the level.
    pub open spec fn advances(self, n: nat) -> EnvelopeState
        decreases n,
    {
        if n == 0 {
            self
        } else {
            self.advance().advances((n - 1) as nat)
        }
    }

    /// The state one chip tick later: the level moves once every `period`
    /// ticks.
    pub open spec fn tick(self) -> EnvelopeState {
        if self.position + 1 >= self.period {
            EnvelopeState { position: 0, ..self }.advance()
        } else {
            EnvelopeState { position: self.position + 1, ..self }
        }
    }

    /// The state `n` chip ticks later.
    pub open spec fn ticks(self, n: nat) -> EnvelopeState
        decreases n,
    {
        if n == 0 {
            self
        } else {
            self.tick().ticks((n - 1) as nat)
        }
    }

    /// The state after a write of `raw` to the whole period.
    pub open spec fn with_period(self, raw: u16) -> EnvelopeState {
        EnvelopeState { period: envelope_period_of(raw as int), ..self }
    }

    /// The state after a write of `raw` to the high byte of the period; the
    /// low byte stays.
    pub open spec fn with_period_msb(self, raw: u8) -> EnvelopeState {
        EnvelopeState {
            period: envelope_period_of(raw * 256 + self.period % 256),
            ..self
        }
    }

    /// The state after a write of `raw` to the low byte of the period; the
    /// high byte stays.
    pub open spec fn with_period_lsb(self, raw: u8) -> EnvelopeState {
        EnvelopeState {
            period: envelope_period_of((self.period / 256) * 256 + raw),
            ..self
        }
    }

    /// The state after a write of `raw` to the shape: the program is its low
    /// four bits, and it starts over at the first segment.
    pub open spec fn with_shape(self, raw: u8) -> EnvelopeState {
        let shape = (raw % 16) as nat;
        EnvelopeState {
            position: 0,
            shape,
            segment: 0,
            value: first_segment(shape).seed(),
            ..self
        }
    }
}

/// A tick keeps a state within its ranges.
pub proof fn lemma_envelope_tick_wf(s: EnvelopeState)
    requires
        s.wf(),
    ensures
        s.tick().wf(),
{
}

/// Ticking `n + 1` times is ticking `n` times and once more.
pub proof fn lemma_envelope_ticks_split(s: EnvelopeState, n: nat)
    ensures
        s.ticks(n + 1) == s.ticks(n).tick(),
    decreases n,
{
    reveal_with_fuel(EnvelopeState::ticks, 2);
    if n > 0 {
        lemma_envelope_ticks_split(s.tick(), (n - 1) as nat);
    }
}

/// The level moves once every `period` ticks: from a state whose level has
/// just moved, it stays for `period - 1` ticks and moves on the tick after
/// them.
pub proof fn lemma_envelope_moves_every_period(s: EnvelopeState, k: nat)
    requires
        s.wf(),
        s.position == 0,
        k <= s.period,
    ensures
        k < s.period ==> s.ticks(k) == (EnvelopeState { position: k, ..s }),
        k == s.period ==> s.ticks(k) == s.advance(),
    decreases k,
{
    reveal_with_fuel(EnvelopeState::ticks, 2);
    if k > 0 {
        lemma_envelope_moves_every_period(s, (k - 1) as nat);
        lemma_envelope_ticks_split(s, (k - 1) as nat);
    }
}

/// A sliding segment covers the whole range one level at a time: `moves`
/// moves after its start a rising segment is at level `moves` and a falling
/// one at `31 - moves`, and the move after the last level leaves the segment.
pub proof fn lemma_envelope_slide(s: EnvelopeState, moves: nat)
    requires
        s.wf(),
        s.value == s.current().seed(),
        s.current() == EnvelopeShape::SlideUp || s.current() == EnvelopeShape::SlideDown,
        moves <= 32,
    ensures
        moves <= 31 && s.current() == EnvelopeShape::SlideUp ==> s.advances(moves) == (
        EnvelopeState { value: moves, ..s }),
        moves <= 31 && s.current() == EnvelopeShape::SlideDown ==> s.advances(moves) == (
        EnvelopeState { value: (31 - moves) as nat, ..s }),
        moves == 32 ==> s.advances(moves) == s.flipped(),
    decreases moves,
{
    reveal_with_fuel(EnvelopeState::advances, 2);
    if moves > 0 {
        lemma_envelope_slide(s, (moves - 1) as nat);
        lemma_envelope_advances_split(s, (moves - 1) as nat);
    }
}

/// Moving `n + 1` times is moving `n` times and once more.
pub proof fn lemma_envelope_advances_split(s: EnvelopeState, n: nat)
    ensures
        s.advances(n + 1) == s.advances(n).advance(),
    decreases n,
{
    reveal_with_fuel(EnvelopeState::advances, 2);
    if n > 0 {
        lemma_envelope_advances_split(s.advance(), (n - 1) as nat);
    }
}

/// A program whose second segment holds stays where it is once it has reached
/// that segment: no later tick moves the level.
pub proof fn lemma_envelope_hold_is_final(s: EnvelopeState, n: nat)
    requires
        s.wf(),
        s.segment == 1,
        s.current() == EnvelopeShape::HoldTop || s.current() == EnvelopeShape::HoldBottom,
    ensures
        s.ticks(n).value == s.value,
        s.ticks(n).segment == 1,
        s.ticks(n).shape == s.shape,
    decreases n,
{
    reveal_with_fuel(EnvelopeState::ticks, 2);
    if n > 0 {
        lemma_envelope_hold_is_final(s.tick(), (n - 1) as nat);
    }
}

/// Moving `a + b` times is moving `a` times and then `b` times.
pub proof fn lemma_envelope_advances_add(s: EnvelopeState, a: nat, b: nat)
    ensures
        s.advances(a + b) == s.advances(a).advances(b),
    decreases a,
{
    reveal_with_fuel(EnvelopeState::advances, 2);
    if a > 0 {
        lemma_envelope_advances_add(s.advance(), (a - 1) as nat, b);
    }
}

/// The four programs that neither hold nor decay repeat for ever: the two
/// sawtooths and the two triangles are back at their start after 64 moves of
/// the level.
pub proof fn lemma_envelope_repeats(s: EnvelopeState)
    requires
        s.wf(),
        s.shape == 8 || s.shape == 10 || s.shape == 12 || s.shape == 14,
        s.segment == 0,
        s.value == s.current().seed(),
    ensures
        s.advances(64) == s,
        s.advances(32) == s.flipped(),
{
    lemma_envelope_slide(s, 32);
    lemma_envelope_slide(s.flipped(), 32);
    lemma_envelope_advances_add(s, 32, 32);
    assert(s.flipped().flipped() == s);
}

/// Every other program runs once: after 32 moves of the level it holds, at the
/// top for the programs 11 and 13 and at the bottom for the others.
pub proof fn lemma_envelope_runs_once(s: EnvelopeState, n: nat)
    requires
        s.wf(),
        !(s.shape == 8 || s.shape == 10 || s.shape == 12 || s.shape == 14),
        s.segment == 0,
        s.value == s.current().seed(),
    ensures
        s.advances(32 + n) == s.flipped(),
        s.flipped().value == if s.shape == 11 || s.shape == 13 { 31nat } else { 0nat },
    decreases n,
{
    lemma_envelope_slide(s, 32);
    if n > 0 {
        lemma_envelope_runs_once(s, (n - 1) as nat);
        lemma_envelope_advances_split(s, (32 + n - 1) as nat);
    }
}

/// The PSG's envelope generator: a five-bit level that follows one of sixteen
/// two-segment programs, moving once every `period` chip ticks.
pub struct EnvelopeGenerator {
    position: u16,
    period: u16,
    shape: u8,
    segment: u8,
    value: u8,
}

impl View for EnvelopeGenerator {
    type V = EnvelopeState;

    closed spec fn view(&self) -> EnvelopeState {
        EnvelopeState {
            position: self.position as nat,
            period: self.period as nat,
            shape: self.shape as nat,
            segment: self.segment as nat,
            value: self.value as nat,
        }
    }
}

/// Look up one segment of an envelope program.
fn lookup_segment(shape: u8, segment: u8) -> (r: EnvelopeShape)
    requires
        shape <= 15,
        segment <= 1,
    ensures
        r == segment_shape(shape as nat, segment as nat),
{
    if segment == 0 {
        match shape {
            0 | 1 | 2 | 3 | 8 | 9 | 10 | 11 => EnvelopeShape::SlideDown,
            _ => EnvelopeShape::SlideUp,
        }
    } else {
        match shape {
            8 | 14 => EnvelopeShape::SlideDown,
            10 | 12 => EnvelopeShape::SlideUp,
            11 | 13 => EnvelopeShape::HoldTop,
            _ => EnvelopeShape::HoldBottom,
        }
    }
}

impl EnvelopeGenerator {
    /// The ranges that every envelope generator keeps, at every moment.
    #[verifier::type_invariant]
    pub open spec fn wf(&self) -> bool {
        self@.wf()
    }

    /// Initialize a new envelope generator.
    pub fn new() -> (r: Self)
        ensures
            r@ == EnvelopeState::initial(),
            r.wf(),
    {
        Self { position: 0, period: 1, shape: 0, segment: 0, value: 0 }
    }

    /// Render the next chip tick for the envelope generator and return the
    /// level.
    pub fn render(&mut self) -> (level: u8)
        ensures
            old(self).wf(),
            final(self)@ == old(self)@.tick(),
            final(self).wf(),
            level == final(self)@.value,
            level <= 31,
    {
        proof {
            use_type_invariant(&*self);
        }
        if self.position + 1 >= self.period {
            self.position = 0;
            match lookup_segment(self.shape, self.segment) {
                EnvelopeShape::SlideDown => {
                    if self.value == 0 {
                        self.segment = 1 - self.segment;
                        self.reset_segment();
                    } else {
                        self.value -= 1;
                    }
                },
                EnvelopeShape::SlideUp => {
                    if self.value >= ENVELOPE_TOP {
                        self.segment = 1 - self.segment;
                        self.reset_segment();
                    } else {
                        self.value += 1;
                    }
                },
                _ => (),
            }
        } else {
            self.position += 1;
        }
        self.value
    }

    /// Reset the level to the start of the running segment: 31 where the
    /// segment starts high, 0 otherwise.
    fn reset_segment(&mut self)
        ensures
            final(self)@ == (EnvelopeState {
                value: old(self)@.current().seed(),
                ..old(self)@
            }),
    {
        proof {
            use_type_invariant(&*self);
        }
        self.value = match lookup_segment(self.shape, self.segment) {
            EnvelopeShape::SlideDown | EnvelopeShape::HoldTop => ENVELOPE_TOP,
            _ => 0,
        };
    }

    /// The envelope generator's period.
    pub fn period(&self) -> (p: u16)
        ensures
            self.wf(),
            p == self@.period,
    {
        proof {
            use_type_invariant(self);
        }
        self.period
    }

    /// Set the envelope generator's period; zero selects 1.
    pub fn set_period(&mut self, period: u16)
        ensures
            old(self).wf(),
            final(self)@ == old(self)@.with_period(period),
            final(self).wf(),
    {
        proof {
            use_type_invariant(&*self);
        }
        self.period = if period == 0 { 1 } else { period };
    }

    /// The most significant byte of the envelope generator's period.
    pub fn period_msb(&self) -> (b: u8)
        ensures
            self.wf(),
            b == self@.period / 256,
    {
        proof {
            use_type_invariant(self);
        }
        let p = self.period;
        assert(p >> 8 == p / 256 && p >> 8 <= 255) by (bit_vector);
        (self.period >> 8) as u8
    }

    /// Set the most significant byte of the envelope generator's period and
    /// keep the least significant one. A period of zero becomes 1.
    pub fn set_period_msb(&mut self, period: u8)
        ensures
            old(self).wf(),
            final(self)@ == old(self)@.with_period_msb(period),
            final(self).wf(),
    {
        proof {
            use_type_invariant(&*self);
        }
        let p = self.period;
        assert((p & 0x00ff) | (((period as u16) & 0xff) << 8) == period * 256 + p % 256)
            by (bit_vector);
        let combined = (self.period & 0x00ff) | (((period as u16) & 0xff) << 8);
        self.period = if combined == 0 { 1 } else { combined };
    }

    /// The least significant byte of the envelope generator's period.
    pub fn period_lsb(&self) -> (b: u8)
        ensures
            self.wf(),
            b == self@.period % 256,
    {
        proof {
            use_type_invariant(self);
        }
        let p = self.period;
        assert(p & 0xff == p % 256) by (bit_vector);
        (self.period & 0xff) as u8
    }

    /// Set the least significant byte of the envelope generator's period and
    /// keep the most significant one. A period of zero becomes 1.
    pub fn set_period_lsb(&mut self, period: u8)
        ensures
            old(self).wf(),
            final(self)@ == old(self)@.with_period_lsb(period),
            final(self).wf(),
    {
        proof {
            use_type_invariant(&*self);
        }
        let p = self.period;
        assert((p & 0xff00) | (period as u16) == (p / 256) * 256 + period) by (bit_vector);
        let combined = (self.period & 0xff00) | (period as u16);
        self.period = if combined == 0 { 1 } else { combined };
    }

    /// The envelope generator's shape, between 0 and 15 inclusive.
    pub fn shape(&self) -> (s: u8)
        ensures
            self.wf(),
            s == self@.shape,
    {
        proof {
            use_type_invariant(self);
        }
        self.shape
    }

    /// Set the envelope generator's shape from the low four bits of `shape`
    /// and start the program over.
    pub fn set_shape(&mut self, shape: u8)
        ensures
            old(self).wf(),
            final(self)@ == old(self)@.with_shape(shape),
            final(self).wf(),
    {
        proof {
            use_type_invariant(&*self);
        }
        assert(shape & 0x0f == shape % 16) by (bit_vector);
        self.shape = shape & 0x0f;
        self.position = 0;
        self.segment = 0;
        self.reset_segment();
    }
}

} // verus!
