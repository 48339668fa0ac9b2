//! Points in time as the session store counts them.
use vstd::prelude::*;

verus! {

/// A point in time: microseconds since the Unix epoch.
#[derive(Clone, Copy, Debug, PartialEq, Eq, Structural)]
pub struct DateTimeAsMicroseconds {
    pub unix_microseconds: i64,
}

impl DateTimeAsMicroseconds {
    pub fn new(unix_microseconds: i64) -> (moment: Self)
        ensures
            moment.unix_microseconds == unix_microseconds,
    {
        DateTimeAsMicroseconds { unix_microseconds }
    }
}

} // verus!
