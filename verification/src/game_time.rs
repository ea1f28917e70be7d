//! In-game time, counted in whole milliseconds.

use vstd::prelude::*;
use crate::pair::Sample;

verus! {

/// A span of in-game time. Its view is the number of milliseconds.
#[derive(Clone, Copy, Debug, PartialEq, Eq, Structural)]
pub struct GameTime {
    pub millis: i64,
}

impl View for GameTime {
    type V = int;

    open spec fn view(&self) -> int {
        self.millis as int
    }
}

impl Sample for GameTime {
    fn same(&self, other: &GameTime) -> (r: bool) {
        self.millis == other.millis
    }
}

/// The most hundredths of a second, of either sign, that a `GameTime` can
/// hold.
pub const MAX_CENTISECONDS: i64 = 922_337_203_685_477_580;

/// Whether `millis` can be held by a `GameTime`.
pub open spec fn representable(millis: int) -> bool {
    i64::MIN <= millis <= i64::MAX
}

impl GameTime {
    /// No time at all.
    pub open spec fn spec_zero() -> GameTime {
        GameTime { millis: 0 }
    }

    /// No time at all.
    #[verifier::when_used_as_spec(spec_zero)]
    pub fn zero() -> (r: GameTime)
        ensures
            r == Self::spec_zero(),
            r@ == 0,
    {
        GameTime { millis: 0 }
    }

    /// The time of `millis` milliseconds.
    pub fn from_milliseconds(millis: i64) -> (r: GameTime)
        ensures
            r@ == millis,
    {
        GameTime { millis }
    }

    /// The time of `centis` hundredths of a second, where it can be held.
    pub fn from_centiseconds(centis: i64) -> (r: Option<GameTime>)
        ensures
            r is Some <==> representable(centis * 10),
            r matches Some(t) ==> t@ == centis * 10,
    {
        if centis > MAX_CENTISECONDS || centis < -MAX_CENTISECONDS {
            None
        } else {
            Some(GameTime { millis: centis * 10 })
        }
    }

    /// The time in milliseconds.
    pub fn milliseconds(&self) -> (r: i64)
        ensures
            r == self@,
    {
        self.millis
    }

    /// The sum of two times, where it can be held.
    pub fn checked_add(self, other: GameTime) -> (r: Option<GameTime>)
        ensures
            r is Some <==> representable(self@ + other@),
            r matches Some(t) ==> t@ == self@ + other@,
    {
        match self.millis.checked_add(other.millis) {
            Some(millis) => Some(GameTime { millis }),
            None => None,
        }
    }

    /// The sum of two times.
    pub fn plus(self, other: GameTime) -> (r: GameTime)
        requires
            representable(self@ + other@),
        ensures
            r@ == self@ + other@,
    {
        GameTime { millis: self.millis + other.millis }
    }
}

} // verus!
