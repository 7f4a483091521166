//! Mirror of the sleep state, for the loops that poll.

use vstd::prelude::*;

verus! {

/// Whether the keyboard is asleep.
#[derive(Debug, Clone, Copy, PartialEq, Eq, Structural)]
pub struct SleepWatch {
    pub asleep: bool,
}

impl SleepWatch {
    /// Awake.
    pub fn new() -> (r: Self)
        ensures
            !r.asleep,
    {
        SleepWatch { asleep: false }
    }

    /// Takes over a change of the sleep state.
    pub fn note(&mut self, sleeping: bool)
        ensures
            final(self).asleep == sleeping,
    {
        self.asleep = sleeping;
    }
}

/// True while the keyboard is asleep.
pub fn sleeping(watch: &SleepWatch) -> (r: bool)
    ensures
        r == watch.asleep,
{
    watch.asleep
}

/// What was noted last is what is told; before the first note the keyboard is awake.
pub proof fn law_last_note_is_told(
    watch: &mut SleepWatch,
    noted: bool,
    told: bool,
    start: SleepWatch,
    first: bool,
)
    requires
        call_ensures(SleepWatch::note, (watch, noted), ()),
        call_ensures(sleeping, (&*final(watch),), told),
        call_ensures(SleepWatch::new, (), start),
        call_ensures(sleeping, (&start,), first),
    ensures
        told == noted,
        !first,
{
}

} // verus!
