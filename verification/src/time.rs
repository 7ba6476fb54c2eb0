use vstd::prelude::*;

verus! {

/// A point in time as seconds and nanoseconds.
#[derive(Clone, Copy, Debug, PartialEq, Eq, Structural)]
pub struct PosixTimeSpec {
    pub tv_sec: i64,
    pub tv_nsec: i64,
}

/// The time zero, which stands for a time that is not known.
pub open spec fn time_zero() -> PosixTimeSpec {
    PosixTimeSpec { tv_sec: 0, tv_nsec: 0 }
}

impl PosixTimeSpec {
    /// Whether this is the time zero.
    pub fn is_empty(&self) -> (r: bool)
        ensures
            r == (*self == time_zero()),
            r == (self.tv_sec == 0 && self.tv_nsec == 0),
    {
        self.tv_sec == 0 && self.tv_nsec == 0
    }
}

impl Default for PosixTimeSpec {
    fn default() -> (r: Self)
        ensures
            r == time_zero(),
            r.tv_sec == 0 && r.tv_nsec == 0,
    {
        PosixTimeSpec { tv_sec: 0, tv_nsec: 0 }
    }
}

} // verus!
