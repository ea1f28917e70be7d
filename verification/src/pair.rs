//! Debounced samples: the last two values read of one quantity.

use vstd::prelude::*;

verus! {

/// A kind of value that is sampled: one that is copied freely and told
/// apart from another of its kind.
pub trait Sample: Copy {
    /// Whether two values are the same.
    fn same(&self, other: &Self) -> (r: bool)
        ensures
            r == (*self == *other),
    ;
}

/// A kind of sample with an order.
pub trait Ranked: Sample {
    /// The place of the value in the order of its kind.
    spec fn rank(&self) -> int;

    /// Whether the value comes before another.
    fn below(&self, other: &Self) -> (r: bool)
        ensures
            r == (self.rank() < other.rank()),
    ;
}

/// Two consecutive samples of one quantity.
#[derive(Debug, PartialEq, Eq)]
pub struct Pair<T> {
    pub previous: T,
    pub current: T,
}

/// The last two samples of a quantity, or nothing while none was taken.
#[derive(Debug, PartialEq, Eq)]
pub struct DebouncedValue<T> {
    pub pair: Option<Pair<T>>,
}

impl<T: Copy> Clone for Pair<T> {
    fn clone(&self) -> (r: Self)
        ensures
            r == *self,
    {
        *self
    }
}

impl<T: Copy> Copy for Pair<T> {
}

impl<T: Copy> Clone for DebouncedValue<T> {
    fn clone(&self) -> (r: Self)
        ensures
            r == *self,
    {
        *self
    }
}

impl<T: Copy> Copy for DebouncedValue<T> {
}

impl<T: Copy> DebouncedValue<T> {
    /// The value after one more sample: the first sample fills both places,
    /// every later one pushes the current value back.
    pub open spec fn updated(self, sample: T) -> Self {
        match self.pair {
            Some(p) => DebouncedValue { pair: Some(Pair { previous: p.current, current: sample }) },
            None => DebouncedValue { pair: Some(Pair { previous: sample, current: sample }) },
        }
    }

    /// The value after all of `samples`, oldest first, starting from nothing.
    pub open spec fn fed(samples: Seq<T>) -> Self
        decreases samples.len(),
    {
        if samples.len() == 0 {
            DebouncedValue { pair: None }
        } else {
            Self::fed(samples.drop_last()).updated(samples.last())
        }
    }

    /// Whether the value has just become `value`.
    pub open spec fn spec_changed_to(self, value: T) -> bool {
        match self.pair {
            Some(p) => p.previous != value && p.current == value,
            None => false,
        }
    }

    /// The current value, or `fallback` while there is none.
    pub open spec fn spec_current_or(self, fallback: T) -> T {
        match self.pair {
            Some(p) => p.current,
            None => fallback,
        }
    }

    /// A value of which nothing has been sampled yet.
    pub fn new() -> (r: Self)
        ensures
            r.pair is None,
    {
        DebouncedValue { pair: None }
    }

    /// Takes one more sample in.
    pub fn update(&mut self, sample: T)
        ensures
            *final(self) == old(self).updated(sample),
    {
        match self.pair {
            Some(p) => {
                self.pair = Some(Pair { previous: p.current, current: sample });
            },
            None => {
                self.pair = Some(Pair { previous: sample, current: sample });
            },
        }
    }

    /// The current value, or `fallback` while there is none.
    pub fn current_or(&self, fallback: T) -> (r: T)
        ensures
            r == self.spec_current_or(fallback),
    {
        match self.pair {
            Some(p) => p.current,
            None => fallback,
        }
    }
}

impl<T: Sample> DebouncedValue<T> {
    /// Whether the value has just become `value`: it is `value` now and was
    /// not before.
    pub fn changed_to(&self, value: &T) -> (r: bool)
        ensures
            r == self.spec_changed_to(*value),
    {
        match self.pair {
            Some(p) => !p.previous.same(value) && p.current.same(value),
            None => false,
        }
    }
}

impl<T: Ranked> DebouncedValue<T> {
    /// Whether the value is greater now than it was before.
    pub open spec fn spec_increased(self) -> bool {
        match self.pair {
            Some(p) => p.previous.rank() < p.current.rank(),
            None => false,
        }
    }

    /// Whether the value is greater now than it was before.
    pub fn increased(&self) -> (r: bool)
        ensures
            r == self.spec_increased(),
    {
        match self.pair {
            Some(p) => p.previous.below(&p.current),
            None => false,
        }
    }
}

impl Sample for bool {
    fn same(&self, other: &bool) -> (r: bool) {
        *self == *other
    }
}

impl Sample for u8 {
    fn same(&self, other: &u8) -> (r: bool) {
        *self == *other
    }
}

impl Sample for u32 {
    fn same(&self, other: &u32) -> (r: bool) {
        *self == *other
    }
}

impl Ranked for u8 {
    open spec fn rank(&self) -> int {
        *self as int
    }

    fn below(&self, other: &u8) -> (r: bool) {
        *self < *other
    }
}

/// After any samples, the pair holds the last two of them; after a single
/// one, that one twice.
pub proof fn lemma_fed_holds_last_two<T: Copy>(samples: Seq<T>)
    ensures
        samples.len() == 0 ==> DebouncedValue::<T>::fed(samples).pair is None,
        samples.len() == 1 ==> DebouncedValue::<T>::fed(samples).pair == Some(
            Pair { previous: samples[0], current: samples[0] },
        ),
        samples.len() >= 2 ==> DebouncedValue::<T>::fed(samples).pair == Some(
            Pair { previous: samples[samples.len() - 2], current: samples[samples.len() - 1] },
        ),
    decreases samples.len(),
{
    if samples.len() > 0 {
        lemma_fed_holds_last_two(samples.drop_last());
    }
}

/// Whatever was sampled, a value has changed to `value` exactly when the
/// last sample is `value` and the one before it is not.
pub proof fn lemma_changed_to_reads_last_two<T: Copy>(samples: Seq<T>, value: T)
    ensures
        DebouncedValue::<T>::fed(samples).spec_changed_to(value) <==> {
            &&& samples.len() >= 2
            &&& samples[samples.len() - 2] != value
            &&& samples[samples.len() - 1] == value
        },
{
    lemma_fed_holds_last_two(samples);
}

/// Whatever was sampled, a value has increased exactly when the last
/// sample is greater than the one before it.
pub proof fn lemma_increased_reads_last_two<T: Ranked>(samples: Seq<T>)
    ensures
        DebouncedValue::<T>::fed(samples).spec_increased() <==> {
            &&& samples.len() >= 2
            &&& samples[samples.len() - 1].rank() > samples[samples.len() - 2].rank()
        },
{
    lemma_fed_holds_last_two(samples);
}

} // verus!
