use vstd::prelude::*;
use vstd::array::{array_as_slice, array_fill_for_copy_types};
use vstd::slice::slice_subrange;

verus! {

/// How many oversampled positions make one output frame.
pub const DECIMATE_FACTOR: usize = 8;

/// The length of the anti-alias filter's impulse response: the number of
/// positions that one frame's filter reads.
pub const FIR_SIZE: usize = 192;

/// The number of frames after which the window is back at the end of its
/// buffer.
pub const DECIMATOR_WINDOWS: usize = 23;

/// The length of the buffer that the window walks through.
pub const FIR_BUFFER_SIZE: usize = 384;

/// The window of oversampled positions that an 8x decimating filter of 192
/// taps reads: the 192 newest positions, the newest first.
///
/// Each frame stores its eight positions in front of the window and the
/// filter reads the 192 positions from there. Nothing is shifted: the window
/// walks down its buffer by eight positions per frame, and every frame leaves
/// a copy of its positions where the window will need them after it has
/// jumped back to the end of the buffer.
pub struct FirWindow<T> {
    buffer: [T; 384],
    index: usize,
}

impl<T> View for FirWindow<T> {
    type V = Seq<T>;

    /// The 192 positions that the filter reads, the newest first.
    closed spec fn view(&self) -> Seq<T> {
        self.buffer@.subrange(self.start() as int, self.start() as int + 192)
    }
}

impl<T> FirWindow<T> {
    /// Which of its 23 places the window is at.
    pub closed spec fn index(&self) -> nat {
        self.index as nat
    }

    /// Where in the buffer the window starts.
    pub open spec fn start(&self) -> nat {
        (192 - 8 * self.index()) as nat
    }

    /// Every position outside the running frame has its copy 184 places up.
    pub closed spec fn mirrored(&self) -> bool {
        forall|p: int|
            16 <= p < 200 && !(self.start() <= p < self.start() + 8) ==> self.buffer@[p + 184]
                == #[trigger] self.buffer@[p]
    }

    /// The window is at one of its 23 places and has its history in reach,
    /// at every moment.
    #[verifier::type_invariant]
    pub open spec fn wf(&self) -> bool {
        &&& self.index() < 23
        &&& self@.len() == 192
        &&& self.mirrored()
    }
}

impl<T: Copy> FirWindow<T> {
    /// A window over a buffer that holds `fill` everywhere.
    pub fn new(fill: T) -> (r: Self)
        ensures
            r.wf(),
            r.index() == 0,
            r@ == Seq::new(192, |i: int| fill),
    {
        let r = Self { buffer: array_fill_for_copy_types(fill), index: 0 };
        proof {
            vstd::array::axiom_spec_array_fill_for_copy_type::<T, 384>(fill);
            assert(r@ =~= Seq::new(192, |i: int| fill));
        }
        r
    }

    /// Where in the buffer the window starts.
    pub fn window_start(&self) -> (s: usize)
        ensures
            self.wf(),
            s == self.start(),
            DECIMATE_FACTOR <= s,
            s + FIR_SIZE <= FIR_BUFFER_SIZE,
    {
        proof {
            use_type_invariant(self);
        }
        FIR_SIZE - self.index * DECIMATE_FACTOR
    }

    /// Store the running frame's position `offset`, of which 0 is the newest.
    pub fn store(&mut self, offset: usize, value: T)
        requires
            offset < DECIMATE_FACTOR,
        ensures
            old(self).wf(),
            final(self).wf(),
            final(self).index() == old(self).index(),
            final(self)@ == old(self)@.update(offset as int, value),
    {
        let start = self.window_start();
        self.buffer[start + offset] = value;
        assert(self@ =~= old(self)@.update(offset as int, value));
    }

    /// The 192 positions that the filter reads, the newest first.
    pub fn window(&self) -> (w: &[T])
        ensures
            self.wf(),
            w@ == self@,
            w@.len() == FIR_SIZE,
    {
        let start = self.window_start();
        slice_subrange(array_as_slice(&self.buffer), start, start + FIR_SIZE)
    }

    /// End the running frame and make room for the next one.
    ///
    /// The window moves on by one frame: its 184 newest positions are now
    /// eight places further back and the eight oldest are gone. The eight
    /// places in front, which the next frame is to store, still hold what was
    /// stored there 23 frames earlier.
    pub fn finish(&mut self)
        ensures
            old(self).wf(),
            final(self).wf(),
            final(self).index() == (old(self).index() + 1) % 23,
            final(self)@ == old(self)@.subrange(176, 184) + old(self)@.subrange(0, 184),
    {
        let start = self.window_start();
        let mut i: usize = 0;
        while i < DECIMATE_FACTOR
            invariant
                i <= DECIMATE_FACTOR,
                start == old(self).start(),
                self.index == old(self).index,
                old(self).wf(),
                forall|p: int|
                    0 <= p < 384 && !(start + 184 <= p < start + 184 + i) ==> self.buffer@[p]
                        == old(self).buffer@[p],
                forall|p: int|
                    start + 184 <= p < start + 184 + i ==> self.buffer@[p] == old(
                        self,
                    ).buffer@[p - 184],
            decreases DECIMATE_FACTOR - i,
        {
            let value = self.buffer[start + i];
            self.buffer[start + FIR_SIZE - DECIMATE_FACTOR + i] = value;
            i += 1;
        }
        self.index = (self.index + 1) % DECIMATOR_WINDOWS;
        proof {
            let expected = old(self)@.subrange(176, 184) + old(self)@.subrange(0, 184);
            assert forall|p: int|
                16 <= p < 200 && !(self.start() <= p < self.start() + 8) implies self.buffer@[p
                    + 184] == #[trigger] self.buffer@[p] by {
                if !(start <= p < start + 8) {
                    assert(old(self).buffer@[p + 184] == old(self).buffer@[p]);
                }
            }
            assert forall|k: int| 0 <= k < 192 implies self@[k] == expected[k] by {
                let p = self.start() + k;
                if old(self).index == 22 {
                    if k >= 16 {
                        assert(old(self).buffer@[p] == old(self).buffer@[p - 184]);
                    }
                } else {
                    if k < 8 {
                        assert(old(self).buffer@[p + 184] == old(self).buffer@[p]);
                    }
                }
            }
            assert(self@ =~= expected);
        }
    }
}

} // verus!
