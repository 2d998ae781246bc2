use vstd::prelude::*;

verus! {

/// A point in time in UTC: whole seconds since the Unix epoch and the
/// nanoseconds past that second. A leap second is shown as nanoseconds of one
/// second or more, below two.
#[derive(Debug, Clone, Copy, PartialEq, Eq)]
pub struct Timestamp {
    pub seconds: i64,
    pub nanoseconds: u32,
}

impl Timestamp {
    /// Whether the nanoseconds stay below two seconds.
    pub open spec fn wf(&self) -> bool {
        self.nanoseconds < 2_000_000_000
    }

    /// The timestamp, if `nanoseconds` is below two seconds.
    pub fn new(seconds: i64, nanoseconds: u32) -> (r: Option<Timestamp>)
        ensures
            r is Some <==> nanoseconds < 2_000_000_000,
            r matches Some(t) ==> t.wf() && t.seconds == seconds && t.nanoseconds == nanoseconds,
    {
        if nanoseconds < 2_000_000_000 {
            Some(Timestamp { seconds, nanoseconds })
        } else {
            None
        }
    }
}

} // verus!
