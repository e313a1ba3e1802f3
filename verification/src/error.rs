use vstd::prelude::*;

verus! {

/// All errors that the PSG may report.
#[derive(Clone, Copy, Debug, PartialEq, Eq, Structural)]
pub enum Error {
    /// The clock rate is too high for the requested sample rate.
    ClockRateTooHigh,
}

impl Error {
    /// The text that describes the error to a reader.
    pub open spec fn text(self) -> Seq<char> {
        match self {
            Error::ClockRateTooHigh => "the clock rate is too high for the requested sample rate"@,
        }
    }

    /// A description of the error.
    pub fn message(&self) -> (s: &'static str)
        ensures
            s@ == self.text(),
    {
        match self {
            Error::ClockRateTooHigh => "the clock rate is too high for the requested sample rate",
        }
    }
}

} // verus!
