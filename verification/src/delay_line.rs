use vstd::prelude::*;
use vstd::array::array_fill_for_copy_types;

verus! {

/// The length of the delay line, a power of two.
pub const DELAY_SIZE: usize = 1024;

/// The last 1024 values that were fed in, the oldest first: the memory of a
/// moving average.
pub struct DelayLine<T> {
    ring: [T; 1024],
    index: usize,
}

impl<T> View for DelayLine<T> {
    type V = Seq<T>;

    closed spec fn view(&self) -> Seq<T> {
        Seq::new(1024, |i: int| self.ring@[(self.index + i) % 1024])
    }
}

impl<T> DelayLine<T> {
    /// The line knows which of its 1024 values is the oldest, at every
    /// moment.
    #[verifier::type_invariant]
    spec fn inv(&self) -> bool {
        self.index < 1024
    }
}

impl<T: Copy> DelayLine<T> {
    /// A delay line that holds `fill` 1024 times.
    pub fn new(fill: T) -> (r: Self)
        ensures
            r@ == Seq::new(1024, |i: int| fill),
    {
        let r = Self { ring: array_fill_for_copy_types(fill), index: 0 };
        proof {
            vstd::array::axiom_spec_array_fill_for_copy_type::<T, 1024>(fill);
            assert(r@ =~= Seq::new(1024, |i: int| fill));
        }
        r
    }

    /// Feed in `input` and return the value that leaves the line: the one
    /// that was fed in 1024 calls earlier.
    pub fn push(&mut self, input: T) -> (evicted: T)
        ensures
            final(self)@.len() == DELAY_SIZE,
            evicted == old(self)@[0],
            final(self)@ == old(self)@.drop_first().push(input),
    {
        proof {
            use_type_invariant(&*self);
        }
        let index = self.index;
        let evicted = self.ring[index];
        self.ring[index] = input;
        let next = index + 1;
        assert(next & 1023 == next % 1024) by (bit_vector);
        self.index = next & (DELAY_SIZE - 1);
        proof {
            let expected = old(self)@.drop_first().push(input);
            assert forall|i: int| 0 <= i < 1024 implies self@[i] == expected[i] by {
                if i < 1023 {
                    assert((self.index + i) % 1024 == (index + (i + 1)) % 1024);
                    assert(expected[i] == old(self)@[i + 1]);
                } else {
                    assert((self.index + i) % 1024 == index);
                }
            }
            assert(self@ =~= expected);
        }
        evicted
    }
}

} // verus!
